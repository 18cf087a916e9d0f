use shush::backend::config::Config;
use shush::compat::{spotify_uri_from_str, track_uri, Credentials};
use shush::error::ErrorKind;
use std::path::PathBuf;

#[test]
fn track_uri_prefixes_id() {
    assert_eq!(track_uri("2dQNBDqHumZS3tfzjrfUHi"), "spotify:track:2dQNBDqHumZS3tfzjrfUHi");
}

#[test]
fn valid_track_uri_parses() {
    let u = spotify_uri_from_str("spotify:track:2dQNBDqHumZS3tfzjrfUHi").unwrap();
    assert_eq!(u.to_uri().unwrap(), "spotify:track:2dQNBDqHumZS3tfzjrfUHi");
}

#[test]
fn foreign_scheme_is_a_librespot_error() {
    let e = spotify_uri_from_str("https://open.spotify.com/track/x").unwrap_err();
    assert_eq!(e.kind, ErrorKind::LibrespotError);
    assert!(e.situation.is_none());
    assert!(!e.details.is_empty());
    assert_ne!(e.details, "https://open.spotify.com/track/x");
}

#[test]
fn bad_track_id_is_a_librespot_error() {
    let e = spotify_uri_from_str("spotify:track:not-base62!").unwrap_err();
    assert_eq!(e.kind, ErrorKind::LibrespotError);
}

#[test]
fn credentials_clone_keeps_fields() {
    let c = Credentials::with_access_token("abc");
    let d = c.clone();
    assert_eq!(d.auth_data, b"abc".to_vec());
    assert_eq!(d.auth_type, c.auth_type);
    assert!(d.username.is_none());
}

#[test]
fn config_path_needs_a_directory() {
    let e = Config::path_in(None).unwrap_err();
    assert_eq!(e.kind, ErrorKind::Unexpected);
    assert_eq!(e.details, "Could not find shush config directory for this OS!");
}

#[test]
fn config_path_is_config_toml_in_directory() {
    let p = Config::path_in(Some(PathBuf::from("/tmp/shush"))).unwrap();
    assert_eq!(p, PathBuf::from("/tmp/shush/config.toml"));
}

#[test]
fn config_path_is_config_toml_or_the_error() {
    match Config::path() {
        Ok(p) => assert!(p.ends_with("config.toml")),
        Err(e) => assert_eq!(e.details, "Could not find shush config directory for this OS!"),
    }
}
