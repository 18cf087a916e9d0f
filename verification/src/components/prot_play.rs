//! The player screen: its state, what the user's clicks and the player's
//! events do to it, and what it asks the session and the runtime to do.
use crate::backend::session::{AudioItem, PlayerEvent, SessionRequest};
use crate::clock::{instant_now, millis_since};
use crate::compat::{parsed_spotify_uri, spotify_uri_accepted, spotify_uri_from_str, track_uri, track_uri_text};
use crate::error::{Error, ErrorKind};
use librespot_core::SpotifyUri;
use std::time::Instant;
use vstd::prelude::*;
use vstd::string::*;

verus! {

/// A track of the user's library, with what the screen reads of it.
#[derive(Debug, Clone)]
pub struct FullTrack {
    pub name: String,
    /// The track's Spotify ID; a local file has none.
    pub id: Option<String>,
}

/// A track saved in the user's library.
#[derive(Debug, Clone)]
pub struct SavedTrack {
    pub track: FullTrack,
}

#[derive(Debug, Clone, Copy, PartialEq, Eq, Structural)]
pub enum PlayState {
    Stopped,
    Playing,
    Paused,
}

/// What the screen receives: clicks, ticks of the seek bar, and loaded data.
#[derive(Debug, Clone)]
pub enum Message {
    PlayThatOneSong,
    Previous,
    Next,
    Pause,
    Resume,
    Ignore,
    /// The seek bar's clock reached this position (in milliseconds).
    SeekTick(u64),
    MyTracksListLoaded(Vec<SavedTrack>),
    ChooseTrack(FullTrack),
}

/// Work that runs beside the screen and sends its messages back to it.
#[derive(Debug, Clone, Copy, PartialEq, Eq, Structural)]
pub enum Task {
    /// Fetch the user's saved tracks; the fetched list comes back as
    /// `Message::MyTracksListLoaded`.
    LoadMyTracks,
    /// Stop any running seek-bar clock, then start one that counts up from
    /// `start_ms`, one `SeekTick` every `SEEK_TICK_MS` milliseconds.
    SeekTicker { start_ms: u64 },
}

/// What the screen asks of its surroundings after a step.
#[derive(Debug)]
pub enum Action {
    /// Execute the task and propagate its messages to the screen.
    Run(Task),
    /// Stop the seek-bar clock, if one runs.
    StopSeekTicker,
    /// Send a request to the session; where the channel is closed, report
    /// that (as `Error::channel_closed`) only if `report_failure` holds.
    Send { request: SessionRequest, report_failure: bool },
    /// Report an error to the user (the log).
    Report(Error),
    Nothing,
}

/// The step of the seek-bar clock, in milliseconds.
pub const SEEK_TICK_MS: u64 = 100;

/// The position the seek-bar clock shows one step after `seek_ms`.
pub fn next_seek_tick(seek_ms: u64) -> (r: u64)
    ensures
        r == if seek_ms + SEEK_TICK_MS <= u64::MAX { (seek_ms + SEEK_TICK_MS) as u64 } else { u64::MAX },
{
    seek_ms.saturating_add(SEEK_TICK_MS)
}

/// The text of the play button in each state.
pub open spec fn play_button_text(state: PlayState) -> Seq<char> {
    match state {
        PlayState::Stopped => "Play"@,
        PlayState::Playing => "Pause"@,
        PlayState::Paused => "Resume"@,
    }
}

/// The request that a click of the user sends to the session, if any.
pub open spec fn command_request(message: Message) -> Option<SessionRequest> {
    match message {
        Message::PlayThatOneSong => Some(SessionRequest::PlayThatOneTrack),
        Message::Pause => Some(SessionRequest::Pause),
        Message::Resume => Some(SessionRequest::Resume),
        Message::Previous => Some(SessionRequest::Previous),
        Message::Next => Some(SessionRequest::Next),
        _ => None,
    }
}

/// The values of the `Ok` results, in order.
pub open spec fn ok_values<T, E>(results: Seq<Result<T, E>>) -> Seq<T>
    decreases results.len(),
{
    if results.len() == 0 {
        Seq::empty()
    } else {
        let rest = ok_values(results.drop_first());
        match results[0] {
            Ok(v) => seq![v] + rest,
            Err(_) => rest,
        }
    }
}

/// What `format!("{:?}", ..)` makes of a text: its debug form.
pub uninterp spec fn debug_text(s: Seq<char>) -> Seq<char>;

/// Calls `format!("{:?}", s)`. Claims that the result is the debug form of the
/// text, which depends on the text alone.
#[verifier::external_body]
fn debug_string(s: &str) -> (r: String)
    ensures
        r@ == debug_text(s@),
{
    format!("{:?}", s)
}

/// The message of the error for a track without an ID.
pub open spec fn missing_id_text(name: Seq<char>) -> Seq<char> {
    "Track \""@ + debug_text(name) + "\" does not have an ID. Is it a local file?"@
}

/// The message of the error when the screen has no channel to the session.
pub open spec fn no_sender_text() -> Seq<char> {
    "Cannot access session_request_sender!"@
}

/// The message of the error when the screen has no web API client.
pub open spec fn no_api_text() -> Seq<char> {
    "Cannot access api!"@
}

/// Whether `r` is what a click that sends `request` asks for: the request,
/// where the screen has a channel to the session, else the report that it
/// has none.
pub open spec fn command_action(has_sender: bool, request: SessionRequest, r: Action) -> bool {
    if has_sender {
        r == (Action::Send { request, report_failure: true })
    } else {
        r matches Action::Report(e) && e.kind == ErrorKind::Unexpected && e.situation.is_none()
            && e.details@ == no_sender_text()
    }
}

/// Whether `r` is what choosing `track` asks for: without a channel to the
/// session, the report that it has none; for a track without an ID, the report
/// of invalid data; where librespot rejects the track's URI, the report of its
/// error; else the request to play the URI that librespot parses from
/// `spotify:track:` and the ID, whose failure goes unreported.
pub open spec fn choose_track_action(has_sender: bool, track: FullTrack, r: Action) -> bool {
    if !has_sender {
        r matches Action::Report(e) && e.kind == ErrorKind::Unexpected && e.situation.is_none()
            && e.details@ == no_sender_text()
    } else {
        match track.id {
            None => r matches Action::Report(e) && e.kind == ErrorKind::InvalidData
                && e.situation.is_none() && e.details@ == missing_id_text(track.name@),
            Some(id) => if spotify_uri_accepted(track_uri_text(id@)) {
                r == (Action::Send {
                    request: SessionRequest::Play(parsed_spotify_uri(track_uri_text(id@))),
                    report_failure: false,
                })
            } else {
                r matches Action::Report(e) && e.kind == ErrorKind::LibrespotError
            },
        }
    }
}

/// Whether `r` is the outcome of choosing `track`: without a channel to the
/// session, the error that it has none; for a track without an ID, the error
/// of invalid data; where librespot rejects the track's URI, its error; else
/// the request to play the URI parsed from `spotify:track:` and the ID.
pub open spec fn play_result(has_sender: bool, track: FullTrack, r: Result<Action, Error>) -> bool {
    if !has_sender {
        r matches Err(e) && e.kind == ErrorKind::Unexpected && e.situation.is_none()
            && e.details@ == no_sender_text()
    } else {
        match track.id {
            None => r matches Err(e) && e.kind == ErrorKind::InvalidData
                && e.situation.is_none() && e.details@ == missing_id_text(track.name@),
            Some(id) => if spotify_uri_accepted(track_uri_text(id@)) {
                r == Ok::<Action, Error>(Action::Send {
                    request: SessionRequest::Play(parsed_spotify_uri(track_uri_text(id@))),
                    report_failure: false,
                })
            } else {
                r matches Err(e) && e.kind == ErrorKind::LibrespotError
            },
        }
    }
}

/// The message that the loaded saved tracks come back as: those that
/// loaded, in order; failed pages are skipped.
pub fn my_tracks_loaded<E>(results: Vec<Result<SavedTrack, E>>) -> (r: Message)
    ensures
        r matches Message::MyTracksListLoaded(tracks) && tracks@ == ok_values(results@),
{
    let ghost all = results@;
    let mut rest = results;
    let mut tracks: Vec<SavedTrack> = Vec::new();
    proof {
        assert(all == rest@);
    }
    while rest.len() > 0
        invariant
            tracks@ + ok_values(rest@) == ok_values(all),
        decreases rest.len(),
    {
        let ghost before = rest@;
        let first = rest.remove(0);
        proof {
            assert(rest@ =~= before.drop_first());
        }
        match first {
            Ok(t) => {
                tracks.push(t);
                proof {
                    assert(tracks@ + ok_values(rest@) =~= tracks@.drop_last() + ok_values(before));
                }
            },
            Err(_) => {},
        }
    }
    proof {
        assert(tracks@ + ok_values(rest@) =~= tracks@);
    }
    Message::MyTracksListLoaded(tracks)
}

/// The player screen. `S` is the sending end of the channel to the session,
/// `A` the client of Spotify's web API.
#[derive(Debug)]
pub struct ProtPlay<S, A> {
    pub api: Option<A>,
    pub play_state: PlayState,
    pub disable_buttons: bool,
    pub session_request_sender: Option<S>,
    pub audio_item: Option<AudioItem>,
    /// The seek bar runs from `seek_range_start` to `seek_range_end` (milliseconds).
    pub seek_range_start: u64,
    pub seek_range_end: u64,
    /// The position the seek bar shows.
    pub seek_state: u64,
    pub last_known_seek: u64,
    /// When the player last started playing from `last_known_seek`.
    pub last_playback_start: Option<Instant>,
    pub my_tracks: Option<Vec<SavedTrack>>,
}

impl<S, A> ProtPlay<S, A> {
    /// The screen counts playback time exactly while the player plays.
    pub open spec fn wf(&self) -> bool {
        self.last_playback_start.is_some() == (self.play_state == PlayState::Playing)
    }

    /// The state after a message of the user or of a task.
    pub open spec fn update_step(self, message: Message) -> Self {
        match message {
            Message::PlayThatOneSong | Message::Pause | Message::Resume | Message::Previous
            | Message::Next | Message::ChooseTrack(_) => ProtPlay { disable_buttons: true, ..self },
            Message::SeekTick(seek) => ProtPlay { seek_state: seek, ..self },
            Message::MyTracksListLoaded(tracks) => ProtPlay { my_tracks: Some(tracks), ..self },
            Message::Ignore => self,
        }
    }

    /// The state after an event of the player; `now` is when it was handled,
    /// the start of playback where playback (re)starts.
    pub open spec fn event_state(self, event: PlayerEvent, now: Option<Instant>) -> Self {
        match event {
            PlayerEvent::Playing { position_ms } => ProtPlay {
                disable_buttons: false,
                play_state: PlayState::Playing,
                last_known_seek: position_ms as u64,
                last_playback_start: now,
                ..self
            },
            PlayerEvent::Paused { position_ms } => ProtPlay {
                disable_buttons: false,
                play_state: PlayState::Paused,
                last_known_seek: position_ms as u64,
                last_playback_start: None,
                seek_state: position_ms as u64,
                ..self
            },
            PlayerEvent::Stopped => ProtPlay {
                disable_buttons: false,
                play_state: PlayState::Stopped,
                last_known_seek: 0,
                last_playback_start: None,
                seek_range_start: 0,
                seek_range_end: 0,
                seek_state: 0,
                ..self
            },
            PlayerEvent::EndOfTrack => ProtPlay {
                disable_buttons: false,
                play_state: PlayState::Stopped,
                last_known_seek: 0,
                last_playback_start: None,
                seek_range_start: 0,
                seek_range_end: 0,
                audio_item: None,
                seek_state: 0,
                ..self
            },
            PlayerEvent::Seeked { position_ms } => if self.play_state == PlayState::Playing {
                ProtPlay {
                    disable_buttons: false,
                    last_known_seek: position_ms as u64,
                    last_playback_start: now,
                    ..self
                }
            } else {
                ProtPlay {
                    disable_buttons: false,
                    last_known_seek: position_ms as u64,
                    seek_state: position_ms as u64,
                    ..self
                }
            },
            PlayerEvent::TrackChanged { audio_item } => ProtPlay {
                seek_range_start: 0,
                seek_range_end: audio_item.duration_ms as u64,
                audio_item: Some(audio_item),
                ..self
            },
            PlayerEvent::Other => self,
        }
    }

    /// What the screen asks for after an event of the player.
    pub open spec fn event_action(self, event: PlayerEvent) -> Action {
        match event {
            PlayerEvent::Playing { position_ms } => Action::Run(Task::SeekTicker { start_ms: position_ms as u64 }),
            PlayerEvent::Paused { .. } | PlayerEvent::Stopped | PlayerEvent::EndOfTrack => Action::StopSeekTicker,
            PlayerEvent::Seeked { position_ms } => if self.play_state == PlayState::Playing {
                Action::Run(Task::SeekTicker { start_ms: position_ms as u64 })
            } else {
                Action::Nothing
            },
            _ => Action::Nothing,
        }
    }

    /// Whether playback (re)starts with this event, so that its start is now.
    pub open spec fn event_starts_playback(self, event: PlayerEvent) -> bool {
        match event {
            PlayerEvent::Playing { .. } => true,
            PlayerEvent::Seeked { .. } => self.play_state == PlayState::Playing,
            _ => false,
        }
    }

    /// Whether `r` is what the screen asks for on a message.
    pub open spec fn update_action(self, message: Message, r: Action) -> bool {
        match message {
            Message::ChooseTrack(track) => choose_track_action(self.session_request_sender.is_some(), track, r),
            Message::Ignore | Message::SeekTick(_) | Message::MyTracksListLoaded(_) => r == Action::Nothing,
            _ => command_action(self.session_request_sender.is_some(), command_request(message).unwrap(), r),
        }
    }

    /// A stopped screen with nothing loaded.
    pub fn new(session_request_sender: Option<S>, api: Option<A>) -> (r: ProtPlay<S, A>)
        ensures
            r.api == api,
            r.session_request_sender == session_request_sender,
            r.play_state == PlayState::Stopped,
            !r.disable_buttons,
            r.audio_item.is_none(),
            r.seek_range_start == 0,
            r.seek_range_end == 0,
            r.seek_state == 0,
            r.last_known_seek == 0,
            r.last_playback_start.is_none(),
            r.my_tracks.is_none(),
            r.wf(),
    {
        ProtPlay {
            api,
            play_state: PlayState::Stopped,
            session_request_sender,
            disable_buttons: false,
            seek_state: 0,
            last_known_seek: 0,
            seek_range_start: 0,
            seek_range_end: 0,
            audio_item: None,
            last_playback_start: None,
            my_tracks: None,
        }
    }

    /// When the screen appears, it loads the user's saved tracks.
    pub fn on_mount(&self) -> (r: Action)
        requires
            self.api.is_some(),
        ensures
            r == Action::Run(Task::LoadMyTracks),
    {
        Action::Run(Task::LoadMyTracks)
    }

    /// The text of the play button.
    pub fn play_button_label(&self) -> (r: &'static str)
        ensures
            r@ == play_button_text(self.play_state),
    {
        match self.play_state {
            PlayState::Stopped => "Play",
            PlayState::Playing => "Pause",
            PlayState::Paused => "Resume",
        }
    }

    /// The message a click on the play button sends: none while the buttons
    /// wait for the player, else the one that fits the state.
    pub fn play_button_message(&self) -> (r: Message)
        ensures
            r == if self.disable_buttons {
                Message::Ignore
            } else {
                match self.play_state {
                    PlayState::Stopped => Message::PlayThatOneSong,
                    PlayState::Playing => Message::Pause,
                    PlayState::Paused => Message::Resume,
                }
            },
    {
        if self.disable_buttons {
            Message::Ignore
        } else {
            match self.play_state {
                PlayState::Stopped => Message::PlayThatOneSong,
                PlayState::Playing => Message::Pause,
                PlayState::Paused => Message::Resume,
            }
        }
    }

    /// Takes a message of the user or of a task. A click disables the buttons
    /// until the player answers, and asks for the request it stands for.
    pub fn update(&mut self, message: Message) -> (r: Action)
        ensures
            *final(self) == old(self).update_step(message),
            old(self).update_action(message, r),
            message matches Message::SeekTick(seek) ==> final(self).seek_state == seek,
    {
        match message {
            Message::PlayThatOneSong => {
                return match self.play_that_one_song() {
                    Ok(a) => a,
                    Err(e) => Self::report_error(e),
                };
            },
            Message::Pause => {
                return match self.pause() {
                    Ok(a) => a,
                    Err(e) => Self::report_error(e),
                };
            },
            Message::Resume => {
                return match self.resume() {
                    Ok(a) => a,
                    Err(e) => Self::report_error(e),
                };
            },
            Message::Ignore => {},
            Message::Previous => {
                return match self.previous() {
                    Ok(a) => a,
                    Err(e) => Self::report_error(e),
                };
            },
            Message::Next => {
                return match self.next() {
                    Ok(a) => a,
                    Err(e) => Self::report_error(e),
                };
            },
            Message::SeekTick(seek) => {
                self.seek_state = seek;
            },
            Message::MyTracksListLoaded(tracks) => {
                self.my_tracks = Some(tracks);
            },
            Message::ChooseTrack(track) => {
                return match self.play(track) {
                    Ok(a) => a,
                    Err(e) => Self::report_error(e),
                };
            },
        }
        Action::Nothing
    }

    /// Takes an event of the player. Every answer of the player to a request
    /// enables the buttons again; the seek bar follows the reported position.
    pub fn librespot_update(&mut self, event: PlayerEvent) -> (r: Action)
        ensures
            *final(self) == old(self).event_state(event, final(self).last_playback_start),
            old(self).event_starts_playback(event) ==> final(self).last_playback_start.is_some(),
            r == old(self).event_action(event),
            event matches PlayerEvent::Playing { position_ms }
                ==> r == Action::Run(Task::SeekTicker { start_ms: position_ms as u64 }),
            event matches PlayerEvent::Seeked { position_ms } ==> (old(self).play_state == PlayState::Playing
                ==> r == Action::Run(Task::SeekTicker { start_ms: position_ms as u64 })),
            event matches PlayerEvent::Seeked { position_ms } ==> (old(self).play_state != PlayState::Playing
                ==> r == Action::Nothing && final(self).seek_state == position_ms),
    {
        match event {
            PlayerEvent::Playing { position_ms } => {
                self.disable_buttons = false;
                self.play_state = PlayState::Playing;
                self.last_known_seek = position_ms as u64;
                self.last_playback_start = Some(instant_now());
                return self.reset_seek_ticker(position_ms as u64);
            },
            PlayerEvent::Paused { position_ms } => {
                self.disable_buttons = false;
                self.play_state = PlayState::Paused;
                self.last_known_seek = position_ms as u64;
                self.last_playback_start = None;
                self.seek_state = position_ms as u64;
                return self.stop_seek_ticker();
            },
            PlayerEvent::Stopped => {
                self.disable_buttons = false;
                self.play_state = PlayState::Stopped;
                self.last_known_seek = 0;
                self.last_playback_start = None;
                self.seek_range_start = 0;
                self.seek_range_end = 0;
                self.seek_state = 0;
                return self.stop_seek_ticker();
            },
            PlayerEvent::EndOfTrack => {
                self.disable_buttons = false;
                self.play_state = PlayState::Stopped;
                self.last_known_seek = 0;
                self.last_playback_start = None;
                self.seek_range_start = 0;
                self.seek_range_end = 0;
                self.audio_item = None;
                self.seek_state = 0;
                return self.stop_seek_ticker();
            },
            PlayerEvent::Seeked { position_ms } => {
                self.disable_buttons = false;
                self.last_known_seek = position_ms as u64;
                if self.play_state == PlayState::Playing {
                    self.last_playback_start = Some(instant_now());
                    return self.reset_seek_ticker(position_ms as u64);
                }
                self.seek_state = position_ms as u64;
            },
            PlayerEvent::TrackChanged { audio_item } => {
                self.seek_range_start = 0;
                self.seek_range_end = audio_item.duration_ms as u64;
                self.audio_item = Some(audio_item);
            },
            PlayerEvent::Other => {},
        }
        Action::Nothing
    }

    fn play_that_one_song(&mut self) -> (r: Result<Action, Error>)
        ensures
            *final(self) == (ProtPlay { disable_buttons: true, ..*old(self) }),
            old(self).session_request_sender.is_some() ==> r == Ok::<Action, Error>(
                Action::Send { request: SessionRequest::PlayThatOneTrack, report_failure: true }),
            old(self).session_request_sender.is_none() ==> (r matches Err(e) && e.kind == ErrorKind::Unexpected
                && e.situation.is_none() && e.details@ == no_sender_text()),
    {
        self.disable_buttons = true;
        match self.session_sender() {
            Ok(_) => Ok(Action::Send { request: SessionRequest::PlayThatOneTrack, report_failure: true }),
            Err(e) => Err(e),
        }
    }

    fn play(&mut self, track: FullTrack) -> (r: Result<Action, Error>)
        ensures
            *final(self) == (ProtPlay { disable_buttons: true, ..*old(self) }),
            play_result(old(self).session_request_sender.is_some(), track, r),
    {
        self.disable_buttons = true;
        match self.session_sender() {
            Ok(_) => {},
            Err(e) => {
                return Err(e);
            },
        }
        match &track.id {
            None => {
                let mut text = String::from_str("Track \"");
                let shown = debug_string(track.name.as_str());
                text.append(shown.as_str());
                text.append("\" does not have an ID. Is it a local file?");
                Err(Error::invalid_data(text.as_str()))
            },
            Some(id) => {
                let uri = track_uri(id.as_str());
                Self::play_parsed(spotify_uri_from_str(uri.as_str()))
            },
        }
    }

    /// What choosing a track asks for once its URI is parsed: the request to
    /// play it (a failed send goes unreported), or the parse error.
    pub fn play_parsed(parsed: Result<SpotifyUri, Error>) -> (r: Result<Action, Error>)
        ensures
            match parsed {
                Ok(u) => r == Ok::<Action, Error>(Action::Send { request: SessionRequest::Play(u), report_failure: false }),
                Err(e) => r == Err::<Action, Error>(e),
            },
    {
        match parsed {
            Ok(spotify_uri) => Ok(Action::Send { request: SessionRequest::Play(spotify_uri), report_failure: false }),
            Err(e) => Err(e),
        }
    }

    fn pause(&mut self) -> (r: Result<Action, Error>)
        ensures
            *final(self) == (ProtPlay { disable_buttons: true, ..*old(self) }),
            old(self).session_request_sender.is_some() ==> r == Ok::<Action, Error>(
                Action::Send { request: SessionRequest::Pause, report_failure: true }),
            old(self).session_request_sender.is_none() ==> (r matches Err(e) && e.kind == ErrorKind::Unexpected
                && e.situation.is_none() && e.details@ == no_sender_text()),
    {
        self.disable_buttons = true;
        match self.session_sender() {
            Ok(_) => Ok(Action::Send { request: SessionRequest::Pause, report_failure: true }),
            Err(e) => Err(e),
        }
    }

    fn resume(&mut self) -> (r: Result<Action, Error>)
        ensures
            *final(self) == (ProtPlay { disable_buttons: true, ..*old(self) }),
            old(self).session_request_sender.is_some() ==> r == Ok::<Action, Error>(
                Action::Send { request: SessionRequest::Resume, report_failure: true }),
            old(self).session_request_sender.is_none() ==> (r matches Err(e) && e.kind == ErrorKind::Unexpected
                && e.situation.is_none() && e.details@ == no_sender_text()),
    {
        self.disable_buttons = true;
        match self.session_sender() {
            Ok(_) => Ok(Action::Send { request: SessionRequest::Resume, report_failure: true }),
            Err(e) => Err(e),
        }
    }

    fn previous(&mut self) -> (r: Result<Action, Error>)
        ensures
            *final(self) == (ProtPlay { disable_buttons: true, ..*old(self) }),
            old(self).session_request_sender.is_some() ==> r == Ok::<Action, Error>(
                Action::Send { request: SessionRequest::Previous, report_failure: true }),
            old(self).session_request_sender.is_none() ==> (r matches Err(e) && e.kind == ErrorKind::Unexpected
                && e.situation.is_none() && e.details@ == no_sender_text()),
    {
        self.disable_buttons = true;
        match self.session_sender() {
            Ok(_) => Ok(Action::Send { request: SessionRequest::Previous, report_failure: true }),
            Err(e) => Err(e),
        }
    }

    fn next(&mut self) -> (r: Result<Action, Error>)
        ensures
            *final(self) == (ProtPlay { disable_buttons: true, ..*old(self) }),
            old(self).session_request_sender.is_some() ==> r == Ok::<Action, Error>(
                Action::Send { request: SessionRequest::Next, report_failure: true }),
            old(self).session_request_sender.is_none() ==> (r matches Err(e) && e.kind == ErrorKind::Unexpected
                && e.situation.is_none() && e.details@ == no_sender_text()),
    {
        self.disable_buttons = true;
        match self.session_sender() {
            Ok(_) => Ok(Action::Send { request: SessionRequest::Next, report_failure: true }),
            Err(e) => Err(e),
        }
    }

    /// Restarts the seek-bar clock from the latest position.
    fn reset_seek_ticker(&self, latest_seek_state: u64) -> (r: Action)
        ensures
            r == Action::Run(Task::SeekTicker { start_ms: latest_seek_state }),
    {
        Action::Run(Task::SeekTicker { start_ms: latest_seek_state })
    }

    /// Stops the seek-bar clock.
    fn stop_seek_ticker(&self) -> (r: Action)
        ensures
            r == Action::StopSeekTicker,
    {
        Action::StopSeekTicker
    }

    /// The estimated position of playback: the last known one, plus the time
    /// played since playback last started, if it is under way.
    pub fn get_current_seek(&self) -> (r: u64)
        ensures
            self.last_playback_start.is_none() ==> r == self.last_known_seek,
            r >= self.last_known_seek,
    {
        let progress: u64 = match &self.last_playback_start {
            Some(start) => millis_since(start),
            None => 0,
        };
        self.seek_after(progress)
    }

    /// The position reached after `progress_ms` more milliseconds of playback
    /// from the last known position (held at the largest `u64`).
    pub fn seek_after(&self, progress_ms: u64) -> (r: u64)
        ensures
            r == if self.last_known_seek + progress_ms <= u64::MAX {
                (self.last_known_seek + progress_ms) as u64
            } else {
                u64::MAX
            },
    {
        self.last_known_seek.saturating_add(progress_ms)
    }

    /// A failed step is reported, and asks for nothing else.
    pub fn report_error(err: Error) -> (r: Action)
        ensures
            r == Action::Report(err),
    {
        Action::Report(err)
    }

    /// The channel to the session, or an error where the screen has none.
    pub fn session_sender(&self) -> (r: Result<&S, Error>)
        ensures
            r.is_ok() == self.session_request_sender.is_some(),
            r matches Ok(s) ==> *s == self.session_request_sender.unwrap(),
            r matches Err(e) ==> e.kind == ErrorKind::Unexpected && e.situation.is_none()
                && e.details@ == no_sender_text(),
    {
        match &self.session_request_sender {
            Some(s) => Ok(s),
            None => Err(Error::new(ErrorKind::Unexpected, "Cannot access session_request_sender!")),
        }
    }

    /// The web API client, or an error where the screen has none.
    pub fn api(&self) -> (r: Result<&A, Error>)
        ensures
            r.is_ok() == self.api.is_some(),
            r matches Ok(a) ==> *a == self.api.unwrap(),
            r matches Err(e) ==> e.kind == ErrorKind::Unexpected && e.situation.is_none()
                && e.details@ == no_api_text(),
    {
        match &self.api {
            Some(a) => Ok(a),
            None => Err(Error::new(ErrorKind::Unexpected, "Cannot access api!")),
        }
    }
}

/// A click that asks the session for something disables the buttons, and
/// every answer of the player enables them again.
pub proof fn law_buttons_wait_for_player<S, A>(p: ProtPlay<S, A>, m: Message, event: PlayerEvent, now: Option<Instant>)
    requires
        command_request(m).is_some() || m is ChooseTrack,
        event is Playing || event is Paused || event is Stopped || event is EndOfTrack || event is Seeked,
    ensures
        p.update_step(m).disable_buttons,
        !p.update_step(m).event_state(event, now).disable_buttons,
{
}

/// The screen counts playback time exactly while the player plays, whatever
/// message or event it takes.
pub proof fn law_playback_clock_follows_state<S, A>(p: ProtPlay<S, A>, m: Message, event: PlayerEvent, now: Option<Instant>)
    requires
        p.wf(),
        p.event_starts_playback(event) ==> now.is_some(),
    ensures
        p.update_step(m).wf(),
        p.event_state(event, now).wf(),
{
}

/// The seek-bar clock follows playback: an event that makes the player play
/// starts it, and one that makes it stop playing stops it; messages never
/// change whether the player plays.
pub proof fn law_seek_ticker_follows_playback<S, A>(p: ProtPlay<S, A>, m: Message, event: PlayerEvent, now: Option<Instant>)
    ensures
        p.event_action(event) matches Action::Run(Task::SeekTicker { .. })
            ==> p.event_state(event, now).play_state == PlayState::Playing,
        p.play_state != PlayState::Playing && p.event_state(event, now).play_state == PlayState::Playing
            ==> p.event_action(event) matches Action::Run(Task::SeekTicker { .. }),
        p.play_state == PlayState::Playing && p.event_state(event, now).play_state != PlayState::Playing
            ==> p.event_action(event) == Action::StopSeekTicker,
        p.update_step(m).play_state == p.play_state,
{
}

/// The seek-bar clock always (re)starts at the position the player reports:
/// on `Playing`, and on `Seeked` while playing, whatever the bar showed before.
/// A seek while not playing moves the bar itself to the reported position.
pub proof fn law_seek_clock_starts_at_reported_position<S, A>(p: ProtPlay<S, A>, position_ms: u32, now: Option<Instant>)
    ensures
        p.event_action(PlayerEvent::Playing { position_ms }) == Action::Run(Task::SeekTicker { start_ms: position_ms as u64 }),
        p.play_state == PlayState::Playing ==> p.event_action(PlayerEvent::Seeked { position_ms })
            == Action::Run(Task::SeekTicker { start_ms: position_ms as u64 }),
        p.play_state != PlayState::Playing ==> p.event_action(PlayerEvent::Seeked { position_ms }) == Action::Nothing
            && p.event_state(PlayerEvent::Seeked { position_ms }, now).seek_state == position_ms as u64,
        p.event_state(PlayerEvent::Seeked { position_ms }, now).last_known_seek == position_ms as u64,
{
}

/// A tick of the seek-bar clock sets the bar to the tick's position, forward
/// or backward, and changes nothing else.
pub proof fn law_seek_tick_sets_bar<S, A>(p: ProtPlay<S, A>, seek: u64)
    ensures
        p.update_step(Message::SeekTick(seek)).seek_state == seek,
        p.update_step(Message::SeekTick(seek)) == (ProtPlay { seek_state: seek, ..p }),
{
}

/// When the player stops or reaches the end of the track, the seek bar is
/// cleared and its clock stopped.
pub proof fn law_stop_clears_seek_bar<S, A>(p: ProtPlay<S, A>, event: PlayerEvent, now: Option<Instant>)
    requires
        event is Stopped || event is EndOfTrack,
    ensures
        p.event_state(event, now).seek_state == 0,
        p.event_state(event, now).seek_range_end == 0,
        p.event_state(event, now).play_state == PlayState::Stopped,
        p.event_action(event) == Action::StopSeekTicker,
{
}

} // verus!
