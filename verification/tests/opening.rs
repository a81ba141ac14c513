use re_viewer::commands::Effect;
use re_viewer::commands::SystemCommand;
use re_viewer::opening::dialog_extensions;
use re_viewer::opening::handle_dropping_files;
use re_viewer::opening::preview_files_being_dropped;
use re_viewer::opening::DroppedFile;
use re_viewer::opening::HoveredFile;
use re_viewer::types::FileContents;
use re_viewer::types::FileSource;
use re_viewer::types::LogDataSource;
use re_viewer::types::Platform;
use re_viewer::types::StoreId;

fn at_path(path: &str) -> DroppedFile {
    DroppedFile {
        path: Some(path.to_owned()),
        name: String::new(),
        bytes: None,
    }
}

fn with_bytes(name: &str) -> DroppedFile {
    DroppedFile {
        path: None,
        name: name.to_owned(),
        bytes: Some(vec![1, 2]),
    }
}

fn source(store_id: StoreId, force_store_info: bool) -> FileSource {
    FileSource::DragAndDrop {
        recommended_store_id: Some(store_id),
        force_store_info,
    }
}

fn load(source: LogDataSource) -> Effect {
    Effect::SendSystem(SystemCommand::LoadDataSource(source))
}

fn recording(app: &str, rec: &str) -> StoreId {
    StoreId::recording(app.to_owned(), rec.to_owned())
}

fn drop_files(
    platform: Platform,
    files: Vec<DroppedFile>,
    active: Option<StoreId>,
) -> Vec<Effect> {
    handle_dropping_files(
        platform,
        files,
        active,
        &"welcome".to_owned(),
        &"r0".to_owned(),
    )
}

#[test]
fn files_are_dropped_into_the_active_recording() {
    assert_eq!(
        drop_files(
            Platform::Native,
            vec![at_path("/a.rrd"), with_bytes("b.rrd")],
            Some(recording("app", "rec")),
        ),
        vec![
            load(LogDataSource::FilePath(
                source(recording("app", "rec"), false),
                "/a.rrd".to_owned()
            )),
            load(LogDataSource::FileContents(
                source(recording("app", "rec"), false),
                FileContents {
                    name: "b.rrd".to_owned(),
                    bytes: vec![1, 2]
                }
            )),
        ]
    );
}

#[test]
fn files_dropped_on_the_welcome_screen_stay_together() {
    for active in [None, Some(recording("welcome", "x"))] {
        assert_eq!(
            drop_files(
                Platform::Native,
                vec![at_path("/a.rrd"), with_bytes("b.rrd")],
                active,
            ),
            vec![
                load(LogDataSource::FilePath(
                    source(recording("/a.rrd", "r0"), true),
                    "/a.rrd".to_owned()
                )),
                load(LogDataSource::FileContents(
                    source(recording("/a.rrd", "r0"), true),
                    FileContents {
                        name: "b.rrd".to_owned(),
                        bytes: vec![1, 2]
                    }
                )),
            ]
        );
    }
}

#[test]
fn files_without_contents_are_not_loaded() {
    let nothing = DroppedFile {
        path: None,
        name: "x".to_owned(),
        bytes: None,
    };
    assert_eq!(drop_files(Platform::Native, vec![nothing], None), vec![]);
    assert_eq!(
        drop_files(Platform::Web, vec![at_path("/a.rrd")], None),
        vec![]
    );
    assert_eq!(drop_files(Platform::Web, vec![], None), vec![]);
}

#[test]
fn hovering_files_are_previewed() {
    let hovered = |path: Option<&str>, mime: &str| HoveredFile {
        path: path.map(str::to_owned),
        mime: mime.to_owned(),
    };
    assert_eq!(preview_files_being_dropped(&vec![]), None);
    assert_eq!(
        preview_files_being_dropped(&vec![
            hovered(Some("/a.rrd"), "ignored"),
            hovered(None, ""),
            hovered(None, "image/png"),
        ]),
        Some("Drop to load:\n\n/a.rrd\nimage/png".to_owned())
    );
}

#[test]
fn dialogs_offer_supported_files() {
    let supported = || vec!["rrd".to_owned(), "rbl".to_owned()];
    assert_eq!(
        dialog_extensions(Platform::Native, 0, supported()),
        Some(supported())
    );
    assert_eq!(dialog_extensions(Platform::Native, 1, supported()), None);
    assert_eq!(dialog_extensions(Platform::Native, 0, vec![]), None);
    assert_eq!(
        dialog_extensions(Platform::Web, 1, supported()),
        Some(supported())
    );
}
