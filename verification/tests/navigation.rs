use re_viewer::navigation::Navigation;
use re_viewer::types::DisplayMode;
use re_viewer::types::LogSource;
use re_viewer::types::StoreId;

fn recordings() -> DisplayMode {
    DisplayMode::LocalRecordings(StoreId::recording("a".to_owned(), "b".to_owned()))
}

fn navigation(mode: DisplayMode) -> Navigation {
    let mut navigation = Navigation::new(DisplayMode::RedapServer("home".to_owned()));
    navigation.replace(mode);
    navigation
}

#[test]
fn home_is_shown_at_first_and_after_a_reset() {
    let mut navigation = Navigation::new(DisplayMode::RedapServer("home".to_owned()));
    assert_eq!(navigation.current, navigation.home);
    navigation.replace(recordings());
    assert_eq!(navigation.current, recordings());
    navigation.reset();
    assert_eq!(
        navigation.current,
        DisplayMode::RedapServer("home".to_owned())
    );
}

#[test]
fn the_settings_keep_what_was_shown() {
    let mut navigation = navigation(recordings());
    navigation.open_settings();
    assert_eq!(
        navigation.current,
        DisplayMode::Settings(Box::new(recordings()))
    );
}

#[test]
fn a_second_toggle_closes_the_browser() {
    for mode in [
        recordings(),
        DisplayMode::RedapEntry("e".to_owned()),
        DisplayMode::RedapServer("s".to_owned()),
    ] {
        let mut navigation = navigation(mode.clone());
        navigation.toggle_chunk_store_browser();
        assert_eq!(
            navigation.current,
            DisplayMode::ChunkStoreBrowser(Box::new(mode.clone()))
        );
        navigation.open_chunk_store_browser();
        assert_eq!(
            navigation.current,
            DisplayMode::ChunkStoreBrowser(Box::new(mode.clone()))
        );
        navigation.toggle_chunk_store_browser();
        assert_eq!(navigation.current, mode);
    }
}

#[test]
fn the_browser_does_not_open_everywhere() {
    for mode in [
        DisplayMode::LocalTable("t".to_owned()),
        DisplayMode::Loading(LogSource::Stdin),
        DisplayMode::Settings(Box::new(recordings())),
    ] {
        let mut navigation = navigation(mode.clone());
        navigation.toggle_chunk_store_browser();
        navigation.open_chunk_store_browser();
        assert_eq!(navigation.current, mode);
    }
}
