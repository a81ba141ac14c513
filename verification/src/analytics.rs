//! What is recorded about the use of the viewer.
use crate::app::AppEnvironment;
use crate::app::BuildInfo;
use crate::commands::EffectOf;
use crate::commands::EffectView;
use crate::types::StoreId;
use vstd::prelude::*;

verus! {

/// What is recorded about a data source.
#[derive(Debug, PartialEq, Eq)]
pub struct DataSourceAnalytics {
    pub source_type: String,
    pub file_extension: Option<String>,
    pub file_source: Option<String>,
}

/// Something that is recorded.
#[derive(Debug, PartialEq, Eq)]
pub enum AnalyticsEvent {
    Identify { build_info: BuildInfo, app_env: AppEnvironment },
    ViewerStarted { app_env: AppEnvironment },
    SettingsOpened,
    LoadDataSource { data_source: DataSourceAnalytics, started_successfully: bool },
    OpenRecording { app_env: AppEnvironment, store_id: StoreId },
}

/// The effect of an event: none in a program that is built to record nothing.
pub open spec fn recorded(records: bool, event: AnalyticsEvent) -> Seq<EffectView> {
    if records {
        seq![EffectOf::Record(event)]
    } else {
        Seq::empty()
    }
}

} // verus!
