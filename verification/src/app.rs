//! The state of the viewer, and how it starts.
use crate::analytics;
use crate::analytics::AnalyticsEvent;
use crate::commands;
use crate::commands::Effect;
use crate::commands::EffectOf;
use crate::commands::EffectView;
use crate::commands::Severity;
use crate::commands::SystemCommandOf;
use crate::commands::UICommand;
use crate::navigation::Navigation;
use crate::text;
use crate::types::AuthContext;
use crate::types::DisplayMode;
use crate::types::Item;
use crate::types::ItemCollection;
use crate::types::LogReceiver;
use crate::types::LogSource;
use crate::types::Platform;
use crate::types::StoreId;
use crate::video_export::ExportState;
use crate::video_export::VideoExporter;
use vstd::prelude::*;
use vstd::string::*;

verus! {

/// What program this is.
#[derive(Debug, PartialEq, Eq)]
pub struct BuildInfo {
    pub version: String,
    /// Whether it can record how it is used.
    pub analytics: bool,
}

impl Clone for BuildInfo {
    fn clone(&self) -> (res: Self)
        ensures
            res == *self,
    {
        BuildInfo { version: self.version.clone(), analytics: self.analytics }
    }
}

/// In what surroundings the viewer was started.
#[derive(Debug, PartialEq, Eq)]
pub enum AppEnvironment {
    Test,
    Other(String),
}

impl Clone for AppEnvironment {
    fn clone(&self) -> (res: Self)
        ensures
            res == *self,
    {
        match self {
            AppEnvironment::Test => AppEnvironment::Test,
            AppEnvironment::Other(name) => AppEnvironment::Other(name.clone()),
        }
    }
}

/// How the viewer was asked to start.
#[derive(Debug, PartialEq, Eq)]
pub struct StartupOptions {
    pub persist_state: bool,
    pub is_in_notebook: bool,
    pub expect_data_soon: Option<bool>,
    pub hide_welcome_screen: bool,
    /// Whether the browser's history is used.
    pub web_history_enabled: bool,
    /// Whether the mouse buttons for going back and forward are handled.
    pub enable_history: bool,
    pub screenshot_to_path_then_quit: Option<String>,
    /// The bits of two `f32`.
    pub resolution_in_points: Option<(u32, u32)>,
    /// In bytes, unlimited if `None`.
    pub memory_limit: Option<u64>,
    /// Whether the host listens to events.
    pub on_event: bool,
    /// Whether the host can switch to full screen.
    pub fullscreen_options: bool,
    /// How videos are decoded, by number.
    pub video_decoder_hw_acceleration: Option<u8>,
}

impl Clone for StartupOptions {
    fn clone(&self) -> (res: Self)
        ensures
            res == *self,
    {
        StartupOptions {
            persist_state: self.persist_state,
            is_in_notebook: self.is_in_notebook,
            expect_data_soon: self.expect_data_soon,
            hide_welcome_screen: self.hide_welcome_screen,
            web_history_enabled: self.web_history_enabled,
            enable_history: self.enable_history,
            screenshot_to_path_then_quit: self.screenshot_to_path_then_quit.clone(),
            resolution_in_points: self.resolution_in_points,
            memory_limit: self.memory_limit,
            on_event: self.on_event,
            fullscreen_options: self.fullscreen_options,
            video_decoder_hw_acceleration: self.video_decoder_hw_acceleration,
        }
    }
}

/// What the user can set.
#[derive(Clone, Copy, Debug, PartialEq, Eq, Structural)]
pub struct AppOptions {
    pub inspect_blueprint_timeline: bool,
    pub show_metrics: bool,
    pub show_notification_toasts: bool,
    pub blueprint_gc: bool,
    /// How videos are decoded, by number.
    pub video_decoder_hw_acceleration: u8,
}

/// What is kept from one start to the next.
#[derive(Debug, PartialEq, Eq)]
pub struct AppState {
    pub app_options: AppOptions,
    pub navigation: Navigation,
    pub selection: ItemCollection,
    pub focused_item: Option<Item>,
    pub auth_state: Option<AuthContext>,
    /// The origins of the known servers.
    pub redap_servers: Vec<String>,
}

/// What is kept from one start to the next, as a mathematical value.
#[verifier::ext_equal]
pub struct StateModel {
    pub app_options: AppOptions,
    pub navigation: Navigation,
    pub selection: Seq<Item>,
    pub focused_item: Option<Item>,
    pub auth_state: Option<AuthContext>,
    pub redap_servers: Seq<String>,
}

impl View for AppState {
    type V = StateModel;

    open spec fn view(&self) -> StateModel {
        StateModel {
            app_options: self.app_options,
            navigation: self.navigation,
            selection: self.selection.items(),
            focused_item: self.focused_item,
            auth_state: self.auth_state,
            redap_servers: self.redap_servers@,
        }
    }
}

/// What the viewer looks like when it is first run.
#[derive(Debug, PartialEq, Eq)]
pub struct Defaults {
    pub app_options: AppOptions,
    pub home: DisplayMode,
    /// The origin of the server of the examples.
    pub examples_origin: String,
    /// The application that the welcome screen belongs to.
    pub welcome_screen_app_id: String,
}

/// The state of a viewer that is run for the first time.
pub open spec fn default_state(defaults: Defaults) -> StateModel {
    StateModel {
        app_options: defaults.app_options,
        navigation: Navigation { home: defaults.home, current: defaults.home },
        selection: Seq::empty(),
        focused_item: None,
        auth_state: None,
        redap_servers: Seq::empty(),
    }
}

impl AppState {
    /// The state of a viewer that is run for the first time.
    pub fn new(defaults: &Defaults) -> (res: Self)
        ensures
            res@ == default_state(*defaults),
            res.selection.wf(),
    {
        AppState {
            app_options: defaults.app_options,
            navigation: Navigation::new(defaults.home.clone()),
            selection: ItemCollection::new(Vec::new()),
            focused_item: None,
            auth_state: None,
            redap_servers: Vec::new(),
        }
    }
}

/// Files that the user is still picking, and what recording they are meant for.
#[derive(Debug, PartialEq, Eq)]
pub struct PendingFiles {
    pub recommended_store_id: Option<StoreId>,
    pub force_store_info: bool,
}

/// The viewer.
pub struct App {
    pub platform: Platform,
    pub build_info: BuildInfo,
    pub app_env: AppEnvironment,
    pub startup_options: StartupOptions,
    pub defaults: Defaults,
    pub state: AppState,
    pub rx_log: Vec<LogReceiver>,
    pub open_files: Option<PendingFiles>,
    pub video: VideoExporter,
    pub memory_panel_open: bool,
    pub egui_debug_panel_open: bool,
    pub panel_state_overrides_active: bool,
    /// Whether the host has listened to events from the start. What the startup options say later
    /// does not matter.
    pub has_event_dispatcher: bool,
    /// Whether the user was pointed to the native viewer, by this or another viewer of the process.
    pub install_hint_shown: bool,
}

/// The viewer as a mathematical value.
#[verifier::ext_equal]
pub struct AppModel {
    pub platform: Platform,
    pub build_info: BuildInfo,
    pub app_env: AppEnvironment,
    pub startup_options: StartupOptions,
    pub defaults: Defaults,
    pub state: StateModel,
    pub rx_log: Seq<LogReceiver>,
    pub open_files: Option<PendingFiles>,
    pub export: Option<ExportState>,
    pub next_export_id: u64,
    pub memory_panel_open: bool,
    pub egui_debug_panel_open: bool,
    pub panel_state_overrides_active: bool,
    pub has_event_dispatcher: bool,
    pub install_hint_shown: bool,
}

impl View for App {
    type V = AppModel;

    open spec fn view(&self) -> AppModel {
        AppModel {
            platform: self.platform,
            build_info: self.build_info,
            app_env: self.app_env,
            startup_options: self.startup_options,
            defaults: self.defaults,
            state: self.state@,
            rx_log: self.rx_log@,
            open_files: self.open_files,
            export: self.video.current(),
            next_export_id: self.video.next_export_id,
            memory_panel_open: self.memory_panel_open,
            egui_debug_panel_open: self.egui_debug_panel_open,
            panel_state_overrides_active: self.panel_state_overrides_active,
            has_event_dispatcher: self.has_event_dispatcher,
            install_hint_shown: self.install_hint_shown,
        }
    }
}

/// What was found of an earlier state.
#[derive(Debug, PartialEq, Eq)]
pub enum StoredState {
    /// There is no storage.
    NoStorage,
    /// The storage holds no state.
    Absent,
    /// The state could not be decoded.
    Unreadable,
    Found(AppState),
}

/// What version was last run, as far as the storage tells. Pre-releases count as their release.
#[derive(Clone, Copy, Debug, PartialEq, Eq, Structural)]
pub enum PreviousVersion {
    Unknown,
    Known { major: u8, minor: u8 },
}

/// The version had a dark theme, and not that of the system: those before 0.24 had.
pub open spec fn had_dark_theme(previous: PreviousVersion) -> bool {
    match previous {
        PreviousVersion::Unknown => true,
        PreviousVersion::Known { major, minor } => major == 0 && minor < 24,
    }
}

/// The state that a viewer starts with, before what the options change in it.
pub open spec fn restored_state(
    persists: bool,
    stored: StoredState,
    defaults: Defaults,
) -> StateModel {
    match stored {
        StoredState::Found(state) => if persists {
            state@
        } else {
            default_state(defaults)
        },
        _ => default_state(defaults),
    }
}

/// The options that a viewer starts with.
pub open spec fn starting_options(
    options: AppOptions,
    app_env: AppEnvironment,
    startup_options: StartupOptions,
) -> AppOptions {
    AppOptions {
        video_decoder_hw_acceleration: match startup_options.video_decoder_hw_acceleration {
            Some(acceleration) => acceleration,
            None => options.video_decoder_hw_acceleration,
        },
        show_metrics: if app_env is Test {
            false
        } else {
            options.show_metrics
        },
        ..options
    }
}

/// The state that a viewer starts with.
pub open spec fn starting_state(
    app_env: AppEnvironment,
    startup_options: StartupOptions,
    stored: StoredState,
    defaults: Defaults,
) -> StateModel {
    let state = restored_state(startup_options.persist_state, stored, defaults);
    StateModel {
        app_options: starting_options(state.app_options, app_env, startup_options),
        ..state
    }
}

/// What the user is told and shown at the start. That there is a viewer, and which one, is recorded.
pub open spec fn startup_effects(
    platform: Platform,
    build_info: BuildInfo,
    app_env: AppEnvironment,
    startup_options: StartupOptions,
    stored: StoredState,
    previous: PreviousVersion,
    defaults: Defaults,
) -> Seq<EffectView> {
    let persists = startup_options.persist_state;
    let warning = if persists && stored is Unreadable {
        seq![
            commands::reported(
                Severity::Warning,
                "Failed to restore application state. This is expected if you have just upgraded Rerun versions."@,
            ),
        ]
    } else {
        Seq::<EffectView>::empty()
    };
    let theme = if persists && !(stored is NoStorage) && had_dark_theme(previous) {
        seq![EffectOf::UseSystemTheme]
    } else {
        Seq::<EffectView>::empty()
    };
    let screenshot = match startup_options.screenshot_to_path_then_quit {
        Some(path) => if platform == Platform::Native {
            seq![EffectOf::ScreenshotThenQuit(path)]
        } else {
            Seq::<EffectView>::empty()
        },
        None => Seq::<EffectView>::empty(),
    };
    let records = analytics::recorded(
        build_info.analytics,
        AnalyticsEvent::Identify { build_info, app_env },
    ) + analytics::recorded(build_info.analytics, AnalyticsEvent::ViewerStarted { app_env });
    let servers = restored_state(persists, stored, defaults).redap_servers;
    let panel = if servers.len() > 0 {
        seq![EffectOf::SendUi(UICommand::ExpandBlueprintPanel)]
    } else {
        Seq::<EffectView>::empty()
    };
    warning + theme + screenshot + records + panel
}

impl App {
    /// The exporter is well formed, and so is the selection.
    pub open spec fn wf(self) -> bool {
        self.video.wf() && self.state.selection.wf()
    }

    /// Creates a viewer, from what was stored of an earlier one if it persists its state.
    pub fn with_commands(
        platform: Platform,
        build_info: BuildInfo,
        app_env: AppEnvironment,
        startup_options: StartupOptions,
        defaults: Defaults,
        stored: StoredState,
        previous: PreviousVersion,
    ) -> (res: (App, Vec<Effect>))
        requires
            stored matches StoredState::Found(state) ==> state.selection.wf(),
        ensures
            res.0.wf(),
            res.0@ == (AppModel {
                platform,
                build_info,
                app_env,
                startup_options,
                defaults,
                state: starting_state(app_env, startup_options, stored, defaults),
                rx_log: Seq::empty(),
                open_files: None,
                export: None,
                next_export_id: 1,
                memory_panel_open: false,
                egui_debug_panel_open: false,
                panel_state_overrides_active: true,
                has_event_dispatcher: startup_options.on_event,
                install_hint_shown: false,
            }),
            commands::viewed(res.1@) == startup_effects(
                platform,
                build_info,
                app_env,
                startup_options,
                stored,
                previous,
                defaults,
            ),
    {
        let ghost all = stored;
        let mut effects = commands::nothing();
        let has_storage = !matches!(stored, StoredState::NoStorage);
        let mut state = AppState::new(&defaults);
        if startup_options.persist_state {
            match stored {
                StoredState::Found(found) => {
                    state = found;
                },
                StoredState::Unreadable => {
                    let text = "Failed to restore application state. This is expected if you have just upgraded Rerun versions.".to_owned();
                    commands::put(&mut effects, commands::report(Severity::Warning, text));
                },
                StoredState::Absent | StoredState::NoStorage => {},
            }
            let had_dark_theme = match previous {
                PreviousVersion::Unknown => true,
                PreviousVersion::Known { major, minor } => major == 0 && minor < 24,
            };
            if has_storage && had_dark_theme {
                commands::put(&mut effects, EffectOf::UseSystemTheme);
            }
        }
        if let Some(acceleration) = startup_options.video_decoder_hw_acceleration {
            state.app_options.video_decoder_hw_acceleration = acceleration;
        }
        if matches!(app_env, AppEnvironment::Test) {
            state.app_options.show_metrics = false;
        }
        if let Platform::Native = platform {
            if let Some(path) = &startup_options.screenshot_to_path_then_quit {
                commands::put(&mut effects, EffectOf::ScreenshotThenQuit(path.clone()));
            }
        }
        if build_info.analytics {
            let identify = AnalyticsEvent::Identify {
                build_info: build_info.clone(),
                app_env: app_env.clone(),
            };
            commands::put(&mut effects, EffectOf::Record(identify));
            let started = AnalyticsEvent::ViewerStarted { app_env: app_env.clone() };
            commands::put(&mut effects, EffectOf::Record(started));
        }
        if state.redap_servers.len() > 0 {
            commands::put(&mut effects, EffectOf::SendUi(UICommand::ExpandBlueprintPanel));
        }
        assert(commands::viewed(effects@) =~= startup_effects(
            platform,
            build_info,
            app_env,
            startup_options,
            all,
            previous,
            defaults,
        ));
        let has_event_dispatcher = startup_options.on_event;
        let app = App {
            platform,
            build_info,
            app_env,
            startup_options,
            defaults,
            state,
            rx_log: Vec::new(),
            open_files: None,
            video: VideoExporter::new(),
            memory_panel_open: false,
            egui_debug_panel_open: false,
            panel_state_overrides_active: true,
            has_event_dispatcher,
            install_hint_shown: false,
        };
        (app, effects)
    }

    pub fn build_info(&self) -> (res: &BuildInfo)
        ensures
            *res == self@.build_info,
    {
        &self.build_info
    }

    pub fn startup_options(&self) -> (res: &StartupOptions)
        ensures
            *res == self@.startup_options,
    {
        &self.startup_options
    }

    pub fn app_options(&self) -> (res: &AppOptions)
        ensures
            *res == self@.state.app_options,
    {
        &self.state.app_options
    }

    /// What the user can set. Nothing else of the viewer can be changed through it.
    pub fn app_options_mut(&mut self) -> (res: &mut AppOptions)
        ensures
            *res == old(self).state.app_options,
            *final(self) == (App {
                state: AppState { app_options: *final(res), ..old(self).state },
                ..*old(self)
            }),
    {
        &mut self.state.app_options
    }

    pub fn app_env(&self) -> (res: &AppEnvironment)
        ensures
            *res == self@.app_env,
    {
        &self.app_env
    }

    /// Has the list of examples loaded from another place.
    pub fn set_examples_manifest_url(&self, url: String) -> (res: Vec<Effect>)
        ensures
            commands::viewed(res@) == manifest_effects(url),
    {
        let text = "Using manifest_url=".to_owned().concat(text::quote(url.as_str()).as_str());
        commands::both(
            commands::report(Severity::Info, text),
            EffectOf::SetExamplesManifestUrl(url),
        )
    }

    /// Whether the host of the web viewer can switch to full screen.
    pub fn is_fullscreen_allowed(&self) -> (res: bool)
        ensures
            res == self@.startup_options.fullscreen_options,
    {
        self.startup_options.fullscreen_options
    }

    /// Whether the web viewer fills the screen, as its host answers; it does not if the host cannot
    /// switch, or fails to answer.
    pub fn is_fullscreen_mode(&self, answer: Result<bool, String>) -> (res: (bool, Vec<Effect>))
        ensures
            (res.0, commands::viewed(res.1@)) == fullscreen(
                self@.startup_options.fullscreen_options,
                answer,
            ),
    {
        if !self.startup_options.fullscreen_options {
            return (false, commands::nothing());
        }
        match answer {
            Ok(on) => (on, commands::nothing()),
            Err(err) => (false, commands::just(commands::report_once(Severity::Error, err))),
        }
    }

    /// The connections that messages come in on.
    pub fn msg_receive_set(&self) -> (res: &Vec<LogReceiver>)
        ensures
            res@ == self@.rx_log,
    {
        &self.rx_log
    }
}

/// The effects of listening to a connection: wake up when something comes in, and get to know its
/// server.
pub open spec fn receiver_effects(rx: LogReceiver) -> Seq<EffectView> {
    let server = match rx.source {
        LogSource::RedapGrpcStream { uri, .. } => seq![
            EffectOf::SendSystem(SystemCommandOf::AddRedapServer(uri.origin)),
        ],
        _ => Seq::<EffectView>::empty(),
    };
    seq![EffectView::WakeOnMessage { handle: rx.handle, millis: 10 }] + server + seq![
        EffectOf::AttachReceiver(rx.handle),
    ]
}

impl App {
    /// Listens to a connection. A server that is not known yet is added, so that there is no data
    /// from an unknown one.
    pub fn add_log_receiver(&mut self, rx: LogReceiver) -> (res: Vec<Effect>)
        ensures
            old(self).wf() ==> final(self).wf(),
            final(self)@ == (AppModel { rx_log: old(self)@.rx_log.push(rx), ..old(self)@ }),
            commands::viewed(res@) == receiver_effects(rx),
    {
        let mut effects = commands::just(
            EffectOf::WakeOnMessage { handle: rx.handle, millis: 10 },
        );
        if let LogSource::RedapGrpcStream { uri, .. } = &rx.source {
            commands::put(
                &mut effects,
                EffectOf::SendSystem(SystemCommandOf::AddRedapServer(uri.origin.clone())),
            );
        }
        commands::put(&mut effects, EffectOf::AttachReceiver(rx.handle));
        assert(commands::viewed(effects@) =~= receiver_effects(rx));
        self.rx_log.push(rx);
        effects
    }
}

/// A viewer that is run for the first time shows what is shown at first, with the default options.
/// Nothing is selected or focused, nobody is logged in, and no server is known.
pub proof fn new_viewers_know_nothing(defaults: Defaults)
    ensures
        ({
            let state = default_state(defaults);
            &&& state.app_options == defaults.app_options
            &&& state.navigation.home == defaults.home
            &&& state.navigation.current == defaults.home
            &&& state.selection.len() == 0
            &&& state.focused_item is None
            &&& state.auth_state is None
            &&& state.redap_servers.len() == 0
        }),
{
}

/// A viewer that persists its state starts with all that was found of it, and else as for the first
/// time. Only how videos are decoded can be overridden at the start, and tests hide the metrics.
pub proof fn viewers_start_where_they_left(
    app_env: AppEnvironment,
    startup_options: StartupOptions,
    stored: StoredState,
    defaults: Defaults,
)
    ensures
        ({
            let state = starting_state(app_env, startup_options, stored, defaults);
            let found = if startup_options.persist_state && stored is Found {
                (stored->Found_0)@
            } else {
                default_state(defaults)
            };
            &&& state.navigation == found.navigation
            &&& state.selection == found.selection
            &&& state.focused_item == found.focused_item
            &&& state.auth_state == found.auth_state
            &&& state.redap_servers == found.redap_servers
            &&& state.app_options.inspect_blueprint_timeline
                == found.app_options.inspect_blueprint_timeline
            &&& state.app_options.show_notification_toasts
                == found.app_options.show_notification_toasts
            &&& state.app_options.blueprint_gc == found.app_options.blueprint_gc
            &&& state.app_options.show_metrics == (found.app_options.show_metrics && !(
            app_env is Test))
            &&& match startup_options.video_decoder_hw_acceleration {
                Some(acceleration) => state.app_options.video_decoder_hw_acceleration
                    == acceleration,
                None => state.app_options.video_decoder_hw_acceleration
                    == found.app_options.video_decoder_hw_acceleration,
            }
        }),
{
}

/// At the start, the user is warned of a state that cannot be read, and gets the theme of the system
/// after a version before 0.24, or an unknown one: both only if the state is persisted. A screenshot
/// is taken if it was asked for, on native alone. The panel of the servers is opened if one is known.
/// What program was started is recorded, if anything is.
pub proof fn starts_tell_what_matters(
    platform: Platform,
    build_info: BuildInfo,
    app_env: AppEnvironment,
    startup_options: StartupOptions,
    stored: StoredState,
    previous: PreviousVersion,
    defaults: Defaults,
    path: String,
)
    ensures
        ({
            let effects = startup_effects(
                platform,
                build_info,
                app_env,
                startup_options,
                stored,
                previous,
                defaults,
            );
            let persists = startup_options.persist_state;
            let old = match previous {
                PreviousVersion::Unknown => true,
                PreviousVersion::Known { major, minor } => 1000 * major + minor < 24,
            };
            let servers = starting_state(app_env, startup_options, stored, defaults).redap_servers;
            &&& effects.contains(EffectView::UseSystemTheme) <==> persists && !(stored is NoStorage)
                && old
            &&& effects.contains(EffectView::ScreenshotThenQuit(path)) <==> platform
                == Platform::Native && startup_options.screenshot_to_path_then_quit == Some(path)
            &&& effects.contains(EffectView::SendUi(UICommand::ExpandBlueprintPanel))
                <==> servers.len() > 0
            &&& (effects.len() > 0 && effects[0] is Report) <==> persists && stored is Unreadable
            &&& effects.contains(
                EffectView::Record(AnalyticsEvent::Identify { build_info, app_env }),
            ) <==> build_info.analytics
            &&& effects.contains(EffectView::Record(AnalyticsEvent::ViewerStarted { app_env }))
                <==> build_info.analytics
        }),
{
    broadcast use {
        vstd::seq_lib::lemma_seq_concat_contains_all_elements,
        vstd::seq_lib::lemma_seq_contains_after_push,
        vstd::seq_lib::lemma_seq_empty_contains_nothing,
    };

}

/// A connection wakes the viewer up, and is attached after that. The server of a dataset becomes
/// known before any data of it comes in; other connections have none.
pub proof fn connections_wake_the_viewer(rx: LogReceiver)
    ensures
        ({
            let effects = receiver_effects(rx);
            &&& effects[0] == EffectView::WakeOnMessage { handle: rx.handle, millis: 10 }
            &&& effects.last() == EffectView::AttachReceiver(rx.handle)
            &&& match rx.source {
                LogSource::RedapGrpcStream { uri, .. } => effects.len() == 3 && effects[1]
                    == EffectView::SendSystem(SystemCommandOf::AddRedapServer(uri.origin)),
                _ => effects.len() == 2,
            }
        }),
{
}

/// What follows when the examples come from somewhere else.
pub open spec fn manifest_effects(url: String) -> Seq<EffectView> {
    seq![
        commands::reported(Severity::Info, "Using manifest_url="@ + text::quoted(url@)),
        EffectOf::SetExamplesManifestUrl(url),
    ]
}

/// Whether the page around the viewer is in fullscreen mode, and what is told of a page that could not
/// answer.
pub open spec fn fullscreen(has_options: bool, answer: Result<bool, String>) -> (
    bool,
    Seq<EffectView>,
) {
    match answer {
        Ok(on) => (has_options && on, Seq::<EffectView>::empty()),
        Err(err) => (
            false,
            if has_options {
                seq![commands::reported_once(Severity::Error, err@)]
            } else {
                Seq::<EffectView>::empty()
            },
        ),
    }
}

/// The page decides whether it is in fullscreen mode, if it can at all. A page that fails to answer is
/// told about once; a page that has nothing to do with it is never.
pub proof fn the_page_knows_about_fullscreen(on: bool, answer: Result<bool, String>, err: String)
    ensures
        fullscreen(true, Ok(on)).0 == on,
        fullscreen(true, Ok(on)).1.len() == 0,
        !fullscreen(false, answer).0,
        fullscreen(false, answer).1.len() == 0,
        !fullscreen(true, Err(err)).0,
        fullscreen(true, Err(err)).1 == seq![
            EffectView::ReportOnce { severity: Severity::Error, text: err@ },
        ],
{
}

/// Examples are taken from the address that was given, and that address is logged.
pub proof fn examples_come_from_the_given_address(url: String)
    ensures
        manifest_effects(url).last() == EffectView::SetExamplesManifestUrl(url),
        manifest_effects(url).len() == 2,
        manifest_effects(url)[0] == (EffectView::Report {
            severity: Severity::Info,
            text: "Using manifest_url="@ + text::quoted(url@),
        }),
{
}

} // verus!
