use shush::backend::session::{AudioItem, PlayerEvent, SessionRequest};
use shush::components::prot_play::{
    my_tracks_loaded, next_seek_tick, Action, FullTrack, Message, PlayState, ProtPlay, SavedTrack,
    Task,
};
use shush::error::ErrorKind;

fn with_session() -> ProtPlay<u8, u8> {
    ProtPlay::new(Some(1u8), Some(2u8))
}

fn without_session() -> ProtPlay<u8, u8> {
    ProtPlay::new(None, None)
}

fn track(name: &str, id: Option<&str>) -> FullTrack {
    FullTrack { name: name.to_string(), id: id.map(|s| s.to_string()) }
}

#[test]
fn new_screen_is_stopped_and_empty() {
    let p = with_session();
    assert_eq!(p.play_state, PlayState::Stopped);
    assert!(!p.disable_buttons);
    assert_eq!(p.seek_state, 0);
    assert_eq!(p.seek_range_end, 0);
    assert!(p.my_tracks.is_none());
    assert_eq!(p.play_button_label(), "Play");
    assert!(matches!(p.play_button_message(), Message::PlayThatOneSong));
}

#[test]
fn mount_loads_my_tracks() {
    assert!(matches!(with_session().on_mount(), Action::Run(Task::LoadMyTracks)));
}

#[test]
fn commands_are_sent_and_disable_buttons() {
    let cases = [
        (Message::PlayThatOneSong, "PlayThatOneTrack"),
        (Message::Pause, "Pause"),
        (Message::Resume, "Resume"),
        (Message::Previous, "Previous"),
        (Message::Next, "Next"),
    ];
    for (msg, expected) in cases {
        let mut p = with_session();
        match p.update(msg) {
            Action::Send { request, report_failure: true } => {
                assert_eq!(format!("{request:?}"), expected)
            }
            other => panic!("unexpected {other:?}"),
        }
        assert!(p.disable_buttons);
        assert!(matches!(p.play_button_message(), Message::Ignore));
    }
}

#[test]
fn commands_without_session_report_missing_sender() {
    let mut p = without_session();
    match p.update(Message::Pause) {
        Action::Report(e) => {
            assert_eq!(e.kind, ErrorKind::Unexpected);
            assert_eq!(e.details, "Cannot access session_request_sender!");
        }
        other => panic!("unexpected {other:?}"),
    }
    assert!(p.disable_buttons);
}

#[test]
fn seek_tick_and_track_list() {
    let mut p = with_session();
    assert!(matches!(p.update(Message::SeekTick(1200)), Action::Nothing));
    assert_eq!(p.seek_state, 1200);
    let list = vec![SavedTrack { track: track("a", Some("2dQNBDqHumZS3tfzjrfUHi")) }];
    assert!(matches!(p.update(Message::MyTracksListLoaded(list)), Action::Nothing));
    assert_eq!(p.my_tracks.as_ref().unwrap()[0].track.name, "a");
    assert!(matches!(p.update(Message::Ignore), Action::Nothing));
    assert!(!p.disable_buttons);
}

#[test]
fn choosing_a_track_requests_it() {
    let mut p = with_session();
    match p.update(Message::ChooseTrack(track("Song", Some("2dQNBDqHumZS3tfzjrfUHi")))) {
        Action::Send { request: SessionRequest::Play(uri), report_failure: false } => {
            assert_eq!(uri.to_uri().unwrap(), "spotify:track:2dQNBDqHumZS3tfzjrfUHi")
        }
        other => panic!("unexpected {other:?}"),
    }
    assert!(p.disable_buttons);
}

#[test]
fn choosing_a_local_file_reports_missing_id() {
    let mut p = with_session();
    match p.update(Message::ChooseTrack(track("My \"Song\"", None))) {
        Action::Report(e) => {
            assert_eq!(e.kind, ErrorKind::InvalidData);
            assert_eq!(
                e.details,
                "Track \"\"My \\\"Song\\\"\"\" does not have an ID. Is it a local file?"
            );
        }
        other => panic!("unexpected {other:?}"),
    }
}

#[test]
fn choosing_a_malformed_id_reports_librespot_error() {
    let mut p = with_session();
    match p.update(Message::ChooseTrack(track("x", Some("???")))) {
        Action::Report(e) => assert_eq!(e.kind, ErrorKind::LibrespotError),
        other => panic!("unexpected {other:?}"),
    }
}

#[test]
fn playing_event_starts_seek_clock() {
    let mut p = with_session();
    p.update(Message::PlayThatOneSong);
    let a = p.librespot_update(PlayerEvent::Playing { position_ms: 1500 });
    assert!(matches!(a, Action::Run(Task::SeekTicker { start_ms: 1500 })));
    assert!(!p.disable_buttons);
    assert_eq!(p.play_state, PlayState::Playing);
    assert_eq!(p.last_known_seek, 1500);
    assert!(p.last_playback_start.is_some());
    assert!(p.get_current_seek() >= 1500);
    assert_eq!(p.play_button_label(), "Pause");
    assert!(matches!(p.play_button_message(), Message::Pause));
}

#[test]
fn paused_event_stops_seek_clock() {
    let mut p = with_session();
    p.librespot_update(PlayerEvent::Playing { position_ms: 10 });
    let a = p.librespot_update(PlayerEvent::Paused { position_ms: 4000 });
    assert!(matches!(a, Action::StopSeekTicker));
    assert_eq!(p.play_state, PlayState::Paused);
    assert_eq!(p.seek_state, 4000);
    assert!(p.last_playback_start.is_none());
    assert_eq!(p.get_current_seek(), 4000);
    assert_eq!(p.play_button_label(), "Resume");
    assert!(matches!(p.play_button_message(), Message::Resume));
}

#[test]
fn seeked_while_paused_moves_bar_only() {
    let mut p = with_session();
    p.librespot_update(PlayerEvent::Paused { position_ms: 10 });
    let a = p.librespot_update(PlayerEvent::Seeked { position_ms: 900 });
    assert!(matches!(a, Action::Nothing));
    assert_eq!(p.seek_state, 900);
    assert_eq!(p.last_known_seek, 900);
}

#[test]
fn seeked_while_playing_restarts_clock() {
    let mut p = with_session();
    p.librespot_update(PlayerEvent::Playing { position_ms: 10 });
    p.update(Message::SeekTick(110));
    let a = p.librespot_update(PlayerEvent::Seeked { position_ms: 900 });
    assert!(matches!(a, Action::Run(Task::SeekTicker { start_ms: 900 })));
    assert_eq!(p.seek_state, 110);
}

#[test]
fn track_change_sets_range_and_end_clears_it() {
    let mut p = with_session();
    let item = AudioItem { uri: "spotify:track:x".to_string(), name: "x".to_string(), duration_ms: 180000 };
    assert!(matches!(p.librespot_update(PlayerEvent::TrackChanged { audio_item: item }), Action::Nothing));
    assert_eq!(p.seek_range_start, 0);
    assert_eq!(p.seek_range_end, 180000);
    assert!(p.audio_item.is_some());
    p.librespot_update(PlayerEvent::Playing { position_ms: 5 });
    let a = p.librespot_update(PlayerEvent::EndOfTrack);
    assert!(matches!(a, Action::StopSeekTicker));
    assert_eq!(p.play_state, PlayState::Stopped);
    assert_eq!(p.seek_range_end, 0);
    assert_eq!(p.seek_state, 0);
    assert!(p.audio_item.is_none());
}

#[test]
fn stopped_keeps_audio_item() {
    let mut p = with_session();
    let item = AudioItem { uri: "u".to_string(), name: "n".to_string(), duration_ms: 1000 };
    p.librespot_update(PlayerEvent::TrackChanged { audio_item: item });
    assert!(matches!(p.librespot_update(PlayerEvent::Stopped), Action::StopSeekTicker));
    assert!(p.audio_item.is_some());
    assert_eq!(p.seek_range_end, 0);
}

#[test]
fn other_events_change_nothing() {
    let mut p = with_session();
    p.update(Message::Pause);
    assert!(matches!(p.librespot_update(PlayerEvent::Other), Action::Nothing));
    assert!(p.disable_buttons);
}

#[test]
fn failed_pages_are_skipped() {
    let results: Vec<Result<SavedTrack, String>> = vec![
        Ok(SavedTrack { track: track("a", None) }),
        Err("page failed".to_string()),
        Ok(SavedTrack { track: track("b", None) }),
    ];
    match my_tracks_loaded(results) {
        Message::MyTracksListLoaded(v) => {
            let names: Vec<&str> = v.iter().map(|t| t.track.name.as_str()).collect();
            assert_eq!(names, vec!["a", "b"]);
        }
        other => panic!("unexpected {other:?}"),
    }
}

#[test]
fn seek_clock_ticks_by_a_tenth_of_a_second() {
    assert_eq!(next_seek_tick(0), 100);
    assert_eq!(next_seek_tick(1450), 1550);
    assert_eq!(next_seek_tick(u64::MAX - 10), u64::MAX);
}

#[test]
fn session_sender_and_api() {
    let p = with_session();
    assert_eq!(*p.session_sender().unwrap(), 1);
    assert_eq!(*p.api().unwrap(), 2);
    let q = without_session();
    assert_eq!(q.api().unwrap_err().details, "Cannot access api!");
}

#[test]
fn parsed_track_uri_becomes_play_request() {
    let uri = librespot_core::SpotifyUri::from_uri("spotify:track:2dQNBDqHumZS3tfzjrfUHi").unwrap();
    match ProtPlay::<u8, u8>::play_parsed(Ok(uri)) {
        Ok(Action::Send { request: SessionRequest::Play(u), report_failure: false }) => {
            assert_eq!(u.to_uri().unwrap(), "spotify:track:2dQNBDqHumZS3tfzjrfUHi")
        }
        other => panic!("unexpected {other:?}"),
    }
    let err = ProtPlay::<u8, u8>::play_parsed(Err(shush::error::Error::librespot("bad"))).unwrap_err();
    assert_eq!(err.details, "bad");
}

#[test]
fn seek_after_adds_played_time() {
    let mut p = with_session();
    p.librespot_update(PlayerEvent::Paused { position_ms: 4000 });
    assert_eq!(p.seek_after(250), 4250);
    p.last_known_seek = u64::MAX - 1;
    assert_eq!(p.seek_after(5), u64::MAX);
}
