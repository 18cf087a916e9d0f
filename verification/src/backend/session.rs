//! The playback session: requests to the player, the player's events, and
//! what the session keeps of them.
use crate::backend::config::Config;
use crate::clock::{instant_now, millis_since};
use crate::compat::{parsed_spotify_uri, spotify_uri_accepted, spotify_uri_from_str, Credentials, OAuthToken};
use crate::error::{Error, ErrorKind};
use librespot_core::SpotifyUri;
use std::time::Instant;
use vstd::prelude::*;

verus! {

/// The track that "play that one track" plays.
pub const THAT_ONE_TRACK_URI: &'static str = "spotify:track:2dQNBDqHumZS3tfzjrfUHi";

/// What the user interface asks of the session.
#[derive(Debug)]
pub enum SessionRequest {
    PlayThatOneTrack,
    Play(SpotifyUri),
    Pause,
    Resume,
    Stop,
    Previous,
    Next,
}

/// A playable item as the player announces it.
#[derive(Debug, Clone)]
pub struct AudioItem {
    pub uri: String,
    pub name: String,
    pub duration_ms: u32,
}

/// What the player reports, with the fields the client reads.
#[derive(Debug, Clone)]
pub enum PlayerEvent {
    Playing { position_ms: u32 },
    Paused { position_ms: u32 },
    Stopped,
    EndOfTrack,
    Seeked { position_ms: u32 },
    TrackChanged { audio_item: AudioItem },
    /// Any other event, which the client ignores.
    Other,
}

/// What the session tells the player to do.
#[derive(Debug)]
pub enum PlayerCommand {
    Load { track: SpotifyUri, start_playing: bool, position_ms: u32 },
    Play,
    Pause,
    Stop,
    Seek { position_ms: u32 },
}

/// What the player reported last: whether it plays, where it was, and since
/// when it has been playing from there.
#[derive(Debug)]
pub struct PlaybackData {
    pub is_playing: bool,
    pub last_known_seek: u64,
    pub last_playback_start: Option<Instant>,
}

impl Default for PlaybackData {
    /// Paused at the start, with no playback under way.
    fn default() -> (r: PlaybackData)
        ensures
            r.wf(),
            !r.is_playing,
            r.last_known_seek == 0,
            r.last_playback_start.is_none(),
    {
        PlaybackData { is_playing: false, last_known_seek: 0, last_playback_start: None }
    }
}

impl PlaybackData {
    /// Playback counts from some moment exactly when the player plays.
    pub open spec fn wf(&self) -> bool {
        self.last_playback_start.is_some() == self.is_playing
    }


    /// The position reached after `progress_ms` more milliseconds of playback
    /// from the last known position (held at the largest `u64`).
    pub fn seek_position_after(&self, progress_ms: u64) -> (r: u64)
        ensures
            r == if self.last_known_seek + progress_ms <= u64::MAX {
                (self.last_known_seek + progress_ms) as u64
            } else {
                u64::MAX
            },
    {
        self.last_known_seek.saturating_add(progress_ms)
    }

    /// The estimated position: the last known one, plus the time played since
    /// playback last started, if it is under way.
    pub fn current_seek_position(&self) -> (r: u64)
        ensures
            self.last_playback_start.is_none() ==> r == self.last_known_seek,
            self.wf() && !self.is_playing ==> r == self.last_known_seek,
            r >= self.last_known_seek,
    {
        let progress: u64 = match &self.last_playback_start {
            Some(start) => millis_since(start),
            None => 0,
        };
        self.seek_position_after(progress)
    }

    /// Takes `seek_position` as the last known position; playback counts from
    /// now on if the player plays.
    pub fn set_seek(&mut self, seek_position: u64)
        ensures
            final(self).is_playing == old(self).is_playing,
            final(self).last_known_seek == seek_position,
            final(self).last_playback_start.is_some() == old(self).is_playing,
            final(self).wf(),
    {
        self.last_known_seek = seek_position;
        self.last_playback_start = if self.is_playing { Some(instant_now()) } else { None };
    }

    /// The player stopped playing.
    pub fn set_paused(&mut self)
        ensures
            !final(self).is_playing,
            final(self).last_known_seek == old(self).last_known_seek,
            final(self).last_playback_start.is_none(),
            final(self).wf(),
    {
        self.is_playing = false;
        self.last_playback_start = None;
    }

    /// The player started playing now.
    pub fn set_playing(&mut self)
        ensures
            final(self).is_playing,
            final(self).last_known_seek == old(self).last_known_seek,
            final(self).last_playback_start.is_some(),
            final(self).wf(),
    {
        self.is_playing = true;
        self.last_playback_start = Some(instant_now());
    }

    /// Brings what the session knows of playback in line with an event of the
    /// player.
    pub fn handle_player_event(&mut self, event: &PlayerEvent)
        ensures
            match *event {
                PlayerEvent::Playing { position_ms } => final(self).is_playing
                    && final(self).last_known_seek == position_ms
                    && final(self).wf(),
                PlayerEvent::Paused { position_ms } => !final(self).is_playing
                    && final(self).last_known_seek == position_ms
                    && final(self).wf(),
                PlayerEvent::Stopped | PlayerEvent::EndOfTrack => !final(self).is_playing
                    && final(self).last_known_seek == 0
                    && final(self).wf(),
                PlayerEvent::Seeked { position_ms } => final(self).is_playing == old(self).is_playing
                    && final(self).last_known_seek == position_ms
                    && final(self).wf(),
                _ => *final(self) == *old(self),
            },
    {
        match event {
            PlayerEvent::Playing { position_ms } => {
                self.set_seek(*position_ms as u64);
                self.set_playing();
            },
            PlayerEvent::Paused { position_ms } => {
                self.set_paused();
                self.set_seek(*position_ms as u64);
            },
            PlayerEvent::Stopped => {
                self.set_paused();
                self.set_seek(0);
            },
            PlayerEvent::Seeked { position_ms } => {
                self.set_seek(*position_ms as u64);
            },
            PlayerEvent::EndOfTrack => {
                self.set_paused();
                self.set_seek(0);
            },
            _ => {},
        }
    }
}

/// The player's position beyond which "previous" goes back to the start of
/// the track.
pub const RESTART_THRESHOLD_MS: u64 = 2000;

/// Turns the session's requests into commands for the player.
#[derive(Debug, Clone, Copy)]
pub struct PlayerMan {}

impl PlayerMan {
    pub fn new() -> (r: PlayerMan)
        ensures
            r == (PlayerMan {}),
    {
        PlayerMan {}
    }

    /// Load a track and play it from its start.
    pub fn load_and_play(&self, track: SpotifyUri) -> (r: PlayerCommand)
        ensures
            r == (PlayerCommand::Load { track, start_playing: true, position_ms: 0 }),
    {
        PlayerCommand::Load { track, start_playing: true, position_ms: 0 }
    }

    pub fn play(&self) -> (r: PlayerCommand)
        ensures
            r == PlayerCommand::Play,
    {
        PlayerCommand::Play
    }

    pub fn pause(&self) -> (r: PlayerCommand)
        ensures
            r == PlayerCommand::Pause,
    {
        PlayerCommand::Pause
    }

    pub fn stop(&self) -> (r: PlayerCommand)
        ensures
            r == PlayerCommand::Stop,
    {
        PlayerCommand::Stop
    }

    /// Load and play the one track this client knows by heart; an error where
    /// librespot rejects its URI.
    pub fn play_that_one_track(&self) -> (r: Result<PlayerCommand, Error>)
        ensures
            r.is_ok() == spotify_uri_accepted(THAT_ONE_TRACK_URI@),
            r matches Ok(c) ==> c == (PlayerCommand::Load {
                track: parsed_spotify_uri(THAT_ONE_TRACK_URI@), start_playing: true, position_ms: 0 }),
            r matches Err(e) ==> e.kind == ErrorKind::LibrespotError,
    {
        self.load_parsed(spotify_uri_from_str(THAT_ONE_TRACK_URI))
    }

    /// Loading and playing a track once its URI is parsed, or the parse error.
    pub fn load_parsed(&self, parsed: Result<SpotifyUri, Error>) -> (r: Result<PlayerCommand, Error>)
        ensures
            match parsed {
                Ok(track) => r == Ok::<PlayerCommand, Error>(
                    PlayerCommand::Load { track, start_playing: true, position_ms: 0 }),
                Err(e) => r == Err::<PlayerCommand, Error>(e),
            },
    {
        match parsed {
            Ok(track) => Ok(self.load_and_play(track)),
            Err(e) => Err(e),
        }
    }

    /// "Previous" at a given position: back to the start of the track once
    /// it has played past the threshold, else nothing.
    pub fn previous_at(&self, position_ms: u64) -> (r: Option<PlayerCommand>)
        ensures
            r == if position_ms > RESTART_THRESHOLD_MS {
                Some(PlayerCommand::Seek { position_ms: 0 })
            } else {
                None
            },
    {
        if position_ms > RESTART_THRESHOLD_MS {
            Some(PlayerCommand::Seek { position_ms: 0 })
        } else {
            None
        }
    }

    /// "Previous" at the position that playback has reached now.
    pub fn previous(&self, playback_data: &PlaybackData) -> (r: Option<PlayerCommand>)
        ensures
            r.is_some() ==> r == Some(PlayerCommand::Seek { position_ms: 0 }),
            playback_data.last_known_seek > RESTART_THRESHOLD_MS ==> r.is_some(),
            playback_data.last_playback_start.is_none() ==> (r.is_some()
                <==> playback_data.last_known_seek > RESTART_THRESHOLD_MS),
    {
        let position = playback_data.current_seek_position();
        self.previous_at(position)
    }

    /// The command, if any, that answers a request of the session; an error
    /// only where librespot rejects the URI of "that one track".
    pub fn handle_request(&self, request: SessionRequest, playback_data: &PlaybackData) -> (r: Result<Option<PlayerCommand>, Error>)
        ensures
            match request {
                SessionRequest::Play(track) => r == Ok::<Option<PlayerCommand>, Error>(
                    Some(PlayerCommand::Load { track, start_playing: true, position_ms: 0 })),
                SessionRequest::PlayThatOneTrack => (r.is_ok() == spotify_uri_accepted(THAT_ONE_TRACK_URI@))
                    && (r matches Ok(c) ==> c == Some(PlayerCommand::Load {
                        track: parsed_spotify_uri(THAT_ONE_TRACK_URI@), start_playing: true, position_ms: 0 }))
                    && (r matches Err(e) ==> e.kind == ErrorKind::LibrespotError),
                SessionRequest::Pause => r == Ok::<Option<PlayerCommand>, Error>(Some(PlayerCommand::Pause)),
                SessionRequest::Resume => r == Ok::<Option<PlayerCommand>, Error>(Some(PlayerCommand::Play)),
                SessionRequest::Stop => r == Ok::<Option<PlayerCommand>, Error>(Some(PlayerCommand::Stop)),
                SessionRequest::Previous => (r matches Ok(c) && (c.is_some() ==> c == Some(PlayerCommand::Seek { position_ms: 0 })))
                    && (playback_data.last_known_seek > RESTART_THRESHOLD_MS ==> r matches Ok(Some(_)))
                    && (playback_data.last_playback_start.is_none() ==> (r matches Ok(Some(_))
                        <==> playback_data.last_known_seek > RESTART_THRESHOLD_MS)),
                SessionRequest::Next => r == Ok::<Option<PlayerCommand>, Error>(None),
            },
    {
        match request {
            SessionRequest::Play(track) => Ok(Some(self.load_and_play(track))),
            SessionRequest::PlayThatOneTrack => match self.play_that_one_track() {
                Ok(c) => Ok(Some(c)),
                Err(e) => Err(e),
            },
            SessionRequest::Pause => Ok(Some(self.pause())),
            SessionRequest::Resume => Ok(Some(self.play())),
            SessionRequest::Stop => Ok(Some(self.stop())),
            SessionRequest::Previous => Ok(self.previous(playback_data)),
            SessionRequest::Next => Ok(None),
        }
    }
}

/// The credentials and the fresh configuration with which a login by OAuth
/// access token starts.
pub fn login_with_access_token(token: &OAuthToken) -> (r: (Credentials, Config))
    ensures
        r.0.username.is_none(),
        r.0.auth_type == crate::compat::AuthenticationType::SpotifyToken,
        r.0.auth_data@ == vstd::utf8::encode_utf8(token.access_token@),
        r.1.credentials.is_none(),
{
    let credentials = Credentials::with_access_token(token.access_token.as_str());
    (credentials, Config::default())
}

/// Whether `r` is the outcome of a login from `config`: its stored
/// credentials and the configuration itself, or, where it holds none, the
/// error that asks to log in again.
pub open spec fn login_with_config_post(config: Config, r: Result<(Credentials, Config), Error>) -> bool {
    &&& r.is_ok() == config.credentials.is_some()
    &&& r matches Ok((c, k)) ==> c@ == config.credentials.unwrap()@ && k.credentials == config.credentials
    &&& r matches Err(e) ==> e.kind == ErrorKind::AuthFailed && e.situation.is_none()
        && e.details@ == "Credentials missing in config, please log in again."@
}

/// The credentials that a login stores in the configuration are those the
/// next login from that configuration uses.
pub proof fn law_stored_credentials_are_used(config: Config, credentials: Credentials, r: Result<(Credentials, Config), Error>)
    requires
        config.credentials == Some(credentials),
        login_with_config_post(config, r),
    ensures
        r matches Ok((c, _)) && c@ == credentials@,
{
}

/// The credentials stored in a configuration, with the configuration, for a
/// login; an error where it holds none.
pub fn login_with_config(config: Config) -> (r: Result<(Credentials, Config), Error>)
    ensures
        login_with_config_post(config, r),
{
    match &config.credentials {
        Some(c) => {
            let credentials = c.clone();
            Ok((credentials, config))
        },
        None => Err(Error::auth_failed("Credentials missing in config, please log in again.")),
    }
}

} // verus!
