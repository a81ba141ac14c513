use re_viewer::sources::drop_source;
use re_viewer::sources::drop_when_closing_all;
use re_viewer::sources::should_fade_in_welcome_screen;
use re_viewer::types::DatasetUri;
use re_viewer::types::FileContents;
use re_viewer::types::FileSource;
use re_viewer::types::Fragment;
use re_viewer::types::LogDataSource;
use re_viewer::types::LogReceiver;
use re_viewer::types::LogSource;
use re_viewer::types::StoreId;

fn uri() -> DatasetUri {
    DatasetUri {
        text: "rerun://server/x".to_owned(),
        base: "rerun://server/x".to_owned(),
        origin: "rerun://server".to_owned(),
        store_id: StoreId::recording("a".to_owned(), "b".to_owned()),
        fragment: Fragment {
            selection: None,
            when: None,
            time_selection: None,
        },
    }
}

fn all() -> Vec<LogSource> {
    vec![
        LogSource::File("f".to_owned()),
        LogSource::RrdHttpStream {
            url: "http://x".to_owned(),
            follow: false,
        },
        LogSource::RedapGrpcStream {
            uri: uri(),
            select_when_loaded: true,
        },
        LogSource::RrdWebEvent,
        LogSource::JsChannel {
            channel_name: "c".to_owned(),
        },
        LogSource::Sdk,
        LogSource::Stdin,
        LogSource::MessageProxy("p".to_owned()),
    ]
}

fn receivers() -> Vec<LogReceiver> {
    all()
        .into_iter()
        .enumerate()
        .map(|(i, source)| LogReceiver {
            source,
            handle: i as u64,
        })
        .collect()
}

fn handles(receivers: &[LogReceiver]) -> Vec<u64> {
    receivers.iter().map(|rx| rx.handle).collect()
}

#[test]
fn only_some_sources_close_with_a_recording() {
    let closing: Vec<bool> = all()
        .iter()
        .map(LogSource::is_closed_with_recording)
        .collect();
    assert_eq!(
        closing,
        vec![true, true, true, false, false, false, false, false]
    );
}

#[test]
fn closing_all_stops_downloads() {
    let mut receivers = receivers();
    drop_when_closing_all(&mut receivers);
    assert_eq!(handles(&receivers), vec![2, 3, 4, 5, 6, 7]);
    drop_when_closing_all(&mut receivers);
    assert_eq!(handles(&receivers), vec![2, 3, 4, 5, 6, 7]);
}

#[test]
fn a_source_is_dropped_with_all_its_receivers() {
    let mut receivers = receivers();
    receivers.push(LogReceiver {
        source: LogSource::Sdk,
        handle: 8,
    });
    drop_source(&mut receivers, &LogSource::Sdk);
    assert_eq!(handles(&receivers), vec![0, 1, 2, 3, 4, 6, 7]);
    drop_source(
        &mut receivers,
        &LogSource::RrdHttpStream {
            url: "http://x".to_owned(),
            follow: true,
        },
    );
    assert_eq!(handles(&receivers), vec![0, 1, 2, 3, 4, 6, 7]);
}

#[test]
fn the_welcome_screen_fades_in_when_data_is_expected() {
    assert!(!should_fade_in_welcome_screen(None, &vec![]));
    assert!(should_fade_in_welcome_screen(Some(true), &vec![]));
    assert!(!should_fade_in_welcome_screen(Some(false), &receivers()));
    for rx in receivers() {
        let expected = !matches!(rx.source, LogSource::MessageProxy(_));
        assert_eq!(should_fade_in_welcome_screen(None, &vec![rx]), expected);
    }
    assert!(should_fade_in_welcome_screen(None, &receivers()));
}

#[test]
fn data_sources_tell_where_messages_come_from() {
    assert_eq!(
        LogDataSource::RrdHttpUrl {
            url: "http://x".to_owned(),
            follow: true
        }
        .log_source(),
        Some(LogSource::RrdHttpStream {
            url: "http://x".to_owned(),
            follow: true
        })
    );
    assert_eq!(
        LogDataSource::FilePath(FileSource::Other, "f".to_owned()).log_source(),
        Some(LogSource::File("f".to_owned()))
    );
    let contents = FileContents {
        name: "n".to_owned(),
        bytes: vec![],
    };
    assert_eq!(
        LogDataSource::FileContents(FileSource::Other, contents).log_source(),
        None
    );
    assert_eq!(LogDataSource::Stdin.log_source(), Some(LogSource::Stdin));
    assert_eq!(
        LogDataSource::RedapDatasetSegment {
            uri: uri(),
            select_when_loaded: false
        }
        .log_source(),
        Some(LogSource::RedapGrpcStream {
            uri: uri(),
            select_when_loaded: false
        })
    );
    assert_eq!(
        LogDataSource::RedapProxy("p".to_owned()).log_source(),
        Some(LogSource::MessageProxy("p".to_owned()))
    );
}
