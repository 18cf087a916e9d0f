use librespot_core::SpotifyUri;
use shush::backend::config::Config;
use shush::backend::session::{
    login_with_access_token, login_with_config, AudioItem, PlaybackData, PlayerCommand,
    PlayerEvent, PlayerMan, SessionRequest,
};
use shush::compat::{stored_credentials, AuthenticationType, OAuthToken};
use shush::error::ErrorKind;
use std::time::Instant;

fn track(id: &str) -> SpotifyUri {
    SpotifyUri::from_uri(&format!("spotify:track:{id}")).unwrap()
}

#[test]
fn playback_starts_paused_at_zero() {
    let p = PlaybackData::default();
    assert!(!p.is_playing);
    assert_eq!(p.last_known_seek, 0);
    assert!(p.last_playback_start.is_none());
    assert_eq!(p.current_seek_position(), 0);
}

#[test]
fn set_seek_while_paused_keeps_clock_off() {
    let mut p = PlaybackData::default();
    p.set_seek(1234);
    assert_eq!(p.last_known_seek, 1234);
    assert!(p.last_playback_start.is_none());
    assert_eq!(p.current_seek_position(), 1234);
}

#[test]
fn set_playing_then_seek_restarts_clock() {
    let mut p = PlaybackData::default();
    p.set_playing();
    assert!(p.is_playing);
    assert!(p.last_playback_start.is_some());
    p.set_seek(5000);
    assert!(p.last_playback_start.is_some());
    assert!(p.current_seek_position() >= 5000);
    p.set_paused();
    assert!(!p.is_playing);
    assert!(p.last_playback_start.is_none());
    assert_eq!(p.current_seek_position(), 5000);
}

#[test]
fn seek_position_after_saturates() {
    let mut p = PlaybackData::default();
    p.set_seek(u64::MAX - 5);
    assert_eq!(p.seek_position_after(3), u64::MAX - 2);
    assert_eq!(p.seek_position_after(10), u64::MAX);
}

#[test]
fn player_events_update_playback_data() {
    let mut p = PlaybackData::default();
    p.handle_player_event(&PlayerEvent::Playing { position_ms: 3000 });
    assert!(p.is_playing);
    assert_eq!(p.last_known_seek, 3000);
    assert!(p.last_playback_start.is_some());

    p.handle_player_event(&PlayerEvent::Seeked { position_ms: 7000 });
    assert!(p.is_playing);
    assert_eq!(p.last_known_seek, 7000);
    assert!(p.last_playback_start.is_some());

    p.handle_player_event(&PlayerEvent::Paused { position_ms: 8000 });
    assert!(!p.is_playing);
    assert_eq!(p.last_known_seek, 8000);
    assert!(p.last_playback_start.is_none());

    p.handle_player_event(&PlayerEvent::Seeked { position_ms: 100 });
    assert!(!p.is_playing);
    assert_eq!(p.last_known_seek, 100);
    assert!(p.last_playback_start.is_none());

    p.handle_player_event(&PlayerEvent::Playing { position_ms: 100 });
    p.handle_player_event(&PlayerEvent::Stopped);
    assert!(!p.is_playing);
    assert_eq!(p.last_known_seek, 0);

    p.handle_player_event(&PlayerEvent::Playing { position_ms: 100 });
    p.handle_player_event(&PlayerEvent::EndOfTrack);
    assert!(!p.is_playing);
    assert_eq!(p.last_known_seek, 0);
    assert!(p.last_playback_start.is_none());
}

#[test]
fn other_events_leave_playback_data_alone() {
    let mut p = PlaybackData::default();
    p.set_seek(42);
    p.handle_player_event(&PlayerEvent::Other);
    p.handle_player_event(&PlayerEvent::TrackChanged {
        audio_item: AudioItem { uri: "u".to_string(), name: "n".to_string(), duration_ms: 9 },
    });
    assert_eq!(p.last_known_seek, 42);
    assert!(!p.is_playing);
}

#[test]
fn previous_restarts_only_past_two_seconds() {
    let m = PlayerMan::new();
    assert!(m.previous_at(2000).is_none());
    assert!(matches!(m.previous_at(2001), Some(PlayerCommand::Seek { position_ms: 0 })));
    let mut p = PlaybackData::default();
    p.set_seek(1500);
    assert!(m.previous(&p).is_none());
    p.set_seek(2500);
    assert!(matches!(m.previous(&p), Some(PlayerCommand::Seek { position_ms: 0 })));
}

#[test]
fn requests_become_player_commands() {
    let m = PlayerMan::new();
    let p = PlaybackData::default();
    let t = track("2dQNBDqHumZS3tfzjrfUHi");
    match m.handle_request(SessionRequest::Play(t.clone()), &p) {
        Ok(Some(PlayerCommand::Load { track, start_playing: true, position_ms: 0 })) => assert!(track == t),
        other => panic!("unexpected {other:?}"),
    }
    assert!(matches!(m.handle_request(SessionRequest::Pause, &p), Ok(Some(PlayerCommand::Pause))));
    assert!(matches!(m.handle_request(SessionRequest::Resume, &p), Ok(Some(PlayerCommand::Play))));
    assert!(matches!(m.handle_request(SessionRequest::Stop, &p), Ok(Some(PlayerCommand::Stop))));
    assert!(matches!(m.handle_request(SessionRequest::Next, &p), Ok(None)));
    assert!(matches!(m.handle_request(SessionRequest::Previous, &p), Ok(None)));
}

#[test]
fn that_one_track_loads_its_uri() {
    let m = PlayerMan::new();
    match m.handle_request(SessionRequest::PlayThatOneTrack, &PlaybackData::default()) {
        Ok(Some(PlayerCommand::Load { track: t, start_playing: true, position_ms: 0 })) => {
            assert_eq!(t.to_uri().unwrap(), "spotify:track:2dQNBDqHumZS3tfzjrfUHi");
        }
        other => panic!("unexpected {other:?}"),
    }
}

#[test]
fn simple_commands() {
    let m = PlayerMan::new();
    assert!(matches!(m.play(), PlayerCommand::Play));
    assert!(matches!(m.pause(), PlayerCommand::Pause));
    assert!(matches!(m.stop(), PlayerCommand::Stop));
    let t = track("4uLU6hMCjMI75M1A2tKUQC");
    assert!(matches!(
        m.load_and_play(t),
        PlayerCommand::Load { start_playing: true, position_ms: 0, .. }
    ));
}

fn token(access: &str) -> OAuthToken {
    OAuthToken {
        access_token: access.to_string(),
        refresh_token: "r".to_string(),
        expires_at: Instant::now(),
        token_type: "Bearer".to_string(),
        scopes: vec!["streaming".to_string()],
    }
}

#[test]
fn access_token_login_uses_token_bytes() {
    let (c, config) = login_with_access_token(&token("tök"));
    assert!(c.username.is_none());
    assert_eq!(c.auth_type, AuthenticationType::SpotifyToken);
    assert_eq!(c.auth_data, "tök".as_bytes().to_vec());
    assert!(config.credentials.is_none());
}

#[test]
fn config_login_without_credentials_fails() {
    let e = login_with_config(Config::default()).unwrap_err();
    assert_eq!(e.kind, ErrorKind::AuthFailed);
    assert_eq!(e.details, "Credentials missing in config, please log in again.");
}

#[test]
fn stored_credentials_are_used_next_time() {
    let mut config = Config::default();
    config.set_stored_credentials(stored_credentials("alice".to_string(), vec![1, 2, 3]));
    let (c, k) = login_with_config(config).unwrap();
    assert_eq!(c.username.as_deref(), Some("alice"));
    assert_eq!(c.auth_type, AuthenticationType::StoredSpotifyCredentials);
    assert_eq!(c.auth_data, vec![1, 2, 3]);
    assert_eq!(k.credentials.unwrap().username.as_deref(), Some("alice"));
}

#[test]
fn parsed_uri_loads_or_passes_error_on() {
    let m = PlayerMan::new();
    assert!(matches!(
        m.load_parsed(Ok(track("2dQNBDqHumZS3tfzjrfUHi"))),
        Ok(PlayerCommand::Load { start_playing: true, position_ms: 0, .. })
    ));
    let e = m.load_parsed(Err(shush::error::Error::librespot("nope"))).unwrap_err();
    assert_eq!(e.kind, ErrorKind::LibrespotError);
}
