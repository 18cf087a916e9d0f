//! The application: which screen it shows, the session it holds, and how
//! messages travel between the screens, the session and the runtime.
pub mod components;

use crate::backend::session::PlayerEvent;
use crate::compat::OAuthToken;
use crate::components::prot_play;
use crate::components::prot_play::ProtPlay;
use crate::error::Error;
use crate::iced_gui::components::auth_wizard;
use crate::iced_gui::components::auth_wizard::AuthWizard;
use crate::util::are_access_scopes;
use vstd::prelude::*;

verus! {

/// The screens the application can show.
#[derive(Debug, Clone, Copy, PartialEq, Eq, Structural)]
pub enum ViewName {
    AuthWizard,
    ProtPlay,
}

/// What a login yields: the session, the stream of its player's events, the
/// channel to send it requests, and the web API client it opened.
#[derive(Debug)]
pub struct SessionListener<Sess, Ev, S, A> {
    pub session: Sess,
    pub player_events: Ev,
    pub session_request_sender: S,
    pub api: A,
}

#[derive(Debug)]
pub enum Message<Sess, Ev, S, A> {
    AuthWizard(auth_wizard::Message),
    ProtPlay(prot_play::Message),
    UpdateSessionListener(SessionListener<Sess, Ev, S, A>),
    LibrespotEventReceived(PlayerEvent),
    ChangeToView(ViewName),
    ErrorLogged(Error),
}

/// The screen on show, with its state.
#[derive(Debug)]
pub enum View<S, A> {
    AuthWizard(AuthWizard),
    ProtPlay(ProtPlay<S, A>),
}

/// What the application asks the runtime to do after a message.
#[derive(Debug)]
pub enum Task<Ev> {
    Nothing,
    /// Run the login screen's task; its messages go to the login screen.
    AuthWizard(auth_wizard::Task),
    /// Carry out the player screen's action; messages go to the player screen.
    ProtPlay(prot_play::Action),
    /// Log in with the token; the outcome comes back as
    /// `App::authentication_message` makes it.
    AuthenticateWithToken(OAuthToken),
    /// Show the player screen (as `Message::ChangeToView(ViewName::ProtPlay)`)
    /// and pass every event of the stream on as `Message::LibrespotEventReceived`.
    ListenToSession(Ev),
}

/// The application. `Sess` is the session, `S` the sending end of the channel
/// to it, `A` the web API client.
#[derive(Debug)]
pub struct App<Sess, S, A> {
    pub view: View<S, A>,
    pub session: Option<Sess>,
    pub session_request_sender: Option<S>,
    pub api: Option<A>,
}

/// A fresh player screen, whose channel and client are clones of the
/// application's, there exactly where the application has them.
pub open spec fn fresh_prot_play<S: Clone, A: Clone, Sess>(p: ProtPlay<S, A>, app: App<Sess, S, A>) -> bool {
    &&& p.session_request_sender.is_some() == app.session_request_sender.is_some()
    &&& app.session_request_sender.is_some() ==> cloned::<S>(app.session_request_sender.unwrap(), p.session_request_sender.unwrap())
    &&& p.api.is_some() == app.api.is_some()
    &&& app.api.is_some() ==> cloned::<A>(app.api.unwrap(), p.api.unwrap())
    &&& p.play_state == prot_play::PlayState::Stopped
    &&& !p.disable_buttons
    &&& p.audio_item.is_none()
    &&& p.seek_range_start == 0
    &&& p.seek_range_end == 0
    &&& p.seek_state == 0
    &&& p.last_known_seek == 0
    &&& p.last_playback_start.is_none()
    &&& p.my_tracks.is_none()
}

/// Whether `r` is the task that a message of the login screen gives: the
/// OAuth flow with the client's scopes, the login with the token, or nothing.
pub open spec fn wizard_task<Ev>(sub: auth_wizard::Message, r: Task<Ev>) -> bool {
    match sub {
        auth_wizard::Message::OpenLoginInBrowser => r matches Task::AuthWizard(auth_wizard::Task::SetupSpotifyAuth { scopes })
            && are_access_scopes(scopes),
        auth_wizard::Message::OAuthSuccessful(token) => r == Task::<Ev>::AuthenticateWithToken(token),
        auth_wizard::Message::Ignore => r == Task::<Ev>::Nothing,
    }
}

impl<Sess, S, A> Default for App<Sess, S, A> {
    /// The login screen, with no session.
    fn default() -> (r: App<Sess, S, A>)
        ensures
            r.view == View::<S, A>::AuthWizard(AuthWizard {}),
            r.session.is_none(),
            r.session_request_sender.is_none(),
            r.api.is_none(),
    {
        App {
            view: View::AuthWizard(AuthWizard::new()),
            session: None,
            session_request_sender: None,
            api: None,
        }
    }
}

impl<Sess, S: Clone, A: Clone> App<Sess, S, A> {
    /// Whether `b` and `r` are the state and the task that `update` gives on
    /// message `m` in state `a`.
    pub open spec fn update_post<Ev>(a: Self, m: Message<Sess, Ev, S, A>, b: Self, r: Task<Ev>) -> bool {
        match m {
            Message::AuthWizard(sub) => match a.view {
                View::AuthWizard(_) => b == a && wizard_task(sub, r),
                View::ProtPlay(_) => b == a && r == Task::<Ev>::Nothing,
            },
            Message::ProtPlay(sub) => match a.view {
                View::ProtPlay(p) => {
                    &&& b == App { view: View::ProtPlay(p.update_step(sub)), ..a }
                    &&& r matches Task::ProtPlay(action) && p.update_action(sub, action)
                },
                View::AuthWizard(_) => b == a && r == Task::<Ev>::Nothing,
            },
            Message::ChangeToView(ViewName::AuthWizard) => {
                &&& b == App { view: View::<S, A>::AuthWizard(AuthWizard {}), ..a }
                &&& r == Task::<Ev>::Nothing
            },
            Message::ChangeToView(ViewName::ProtPlay) => {
                &&& b.session == a.session
                &&& b.session_request_sender == a.session_request_sender
                &&& b.api == a.api
                &&& b.view matches View::ProtPlay(p) && fresh_prot_play(p, a)
                &&& r == Task::<Ev>::ProtPlay(prot_play::Action::Run(prot_play::Task::LoadMyTracks))
            },
            Message::UpdateSessionListener(l) => {
                &&& b == App {
                    view: a.view,
                    session: Some(l.session),
                    session_request_sender: Some(l.session_request_sender),
                    api: Some(l.api),
                }
                &&& r == Task::ListenToSession(l.player_events)
            },
            Message::LibrespotEventReceived(event) => match a.view {
                View::ProtPlay(p) => {
                    &&& b.session == a.session
                    &&& b.session_request_sender == a.session_request_sender
                    &&& b.api == a.api
                    &&& b.view matches View::ProtPlay(q) && q == p.event_state(event, q.last_playback_start)
                        && (p.event_starts_playback(event) ==> q.last_playback_start.is_some())
                    &&& r == Task::<Ev>::ProtPlay(p.event_action(event))
                },
                View::AuthWizard(_) => b == a && r == Task::<Ev>::Nothing,
            },
            Message::ErrorLogged(_) => b == a && r == Task::<Ev>::Nothing,
        }
    }

    /// Takes a message: it goes to the screen on show where it is meant for
    /// it; a new session is kept and shows the player; a change of screen
    /// builds the new screen afresh.
    pub fn update<Ev>(&mut self, message: Message<Sess, Ev, S, A>) -> (r: Task<Ev>)
        requires
            message matches Message::ChangeToView(ViewName::ProtPlay) ==> old(self).api.is_some(),
        ensures
            Self::update_post(*old(self), message, *final(self), r),
    {
        match message {
            Message::AuthWizard(sub_message) => {
                match &mut self.view {
                    View::AuthWizard(auth_wizard) => {
                        match auth_wizard.update(sub_message) {
                            auth_wizard::Action::Run(task) => {
                                return Task::AuthWizard(task);
                            },
                            auth_wizard::Action::Nothing => {},
                            auth_wizard::Action::AuthenticateWithToken(token) => {
                                return Task::AuthenticateWithToken(token);
                            },
                        }
                    },
                    View::ProtPlay(_) => {},
                }
            },
            Message::ProtPlay(sub_message) => {
                match &mut self.view {
                    View::ProtPlay(prot_play) => {
                        return Task::ProtPlay(prot_play.update(sub_message));
                    },
                    View::AuthWizard(_) => {},
                }
            },
            Message::ChangeToView(view_name) => {
                match view_name {
                    ViewName::AuthWizard => {
                        self.view = View::AuthWizard(AuthWizard::new());
                    },
                    ViewName::ProtPlay => {
                        let prot_play = ProtPlay::new(self.session_request_sender.clone(), self.api.clone());
                        let task = prot_play.on_mount();
                        self.view = View::ProtPlay(prot_play);
                        return Task::ProtPlay(task);
                    },
                }
            },
            Message::UpdateSessionListener(listener) => {
                self.session_request_sender = Some(listener.session_request_sender);
                self.session = Some(listener.session);
                self.api = Some(listener.api);
                return Task::ListenToSession(listener.player_events);
            },
            Message::LibrespotEventReceived(player_event) => {
                match &mut self.view {
                    View::AuthWizard(_) => {},
                    View::ProtPlay(prot_play) => {
                        return Task::ProtPlay(prot_play.librespot_update(player_event));
                    },
                }
            },
            Message::ErrorLogged(_) => {},
        }
        Task::Nothing
    }

    /// An error is logged (by the caller) and kept in the message.
    pub fn log_error<Ev>(err: Error) -> (r: Message<Sess, Ev, S, A>)
        ensures
            r == Message::<Sess, Ev, S, A>::ErrorLogged(err),
    {
        Message::ErrorLogged(err)
    }

    /// The message with which a login by token ends: the new session, or the
    /// error to log.
    pub fn authentication_message<Ev>(result: Result<SessionListener<Sess, Ev, S, A>, Error>) -> (r: Message<Sess, Ev, S, A>)
        ensures
            match result {
                Ok(listener) => r == Message::UpdateSessionListener(listener),
                Err(err) => r == Message::<Sess, Ev, S, A>::ErrorLogged(err),
            },
    {
        match result {
            Ok(listener) => Message::UpdateSessionListener(listener),
            Err(err) => Self::log_error(err),
        }
    }

    /// The message with which the login from the stored configuration ends at
    /// start-up: the new session, or else the login screen (the error is
    /// logged by the caller).
    pub fn load_config_message<Ev>(result: Result<SessionListener<Sess, Ev, S, A>, Error>) -> (r: Message<Sess, Ev, S, A>)
        ensures
            match result {
                Ok(listener) => r == Message::UpdateSessionListener(listener),
                Err(_) => r == Message::<Sess, Ev, S, A>::ChangeToView(ViewName::AuthWizard),
            },
    {
        match result {
            Ok(listener) => Message::UpdateSessionListener(listener),
            Err(_) => Message::ChangeToView(ViewName::AuthWizard),
        }
    }
}

/// Once a login has handed over its session and the player screen is shown,
/// every click on the player screen's controls reaches the session as its
/// request.
pub proof fn law_session_reaches_player<Sess, Ev, S: Clone, A: Clone>(
    a0: App<Sess, S, A>,
    listener: SessionListener<Sess, Ev, S, A>,
    a1: App<Sess, S, A>,
    t1: Task<Ev>,
    a2: App<Sess, S, A>,
    t2: Task<Ev>,
    click: prot_play::Message,
    a3: App<Sess, S, A>,
    t3: Task<Ev>,
)
    requires
        App::update_post(a0, Message::UpdateSessionListener(listener), a1, t1),
        App::update_post(a1, Message::<Sess, Ev, S, A>::ChangeToView(ViewName::ProtPlay), a2, t2),
        App::update_post(a2, Message::<Sess, Ev, S, A>::ProtPlay(click), a3, t3),
        prot_play::command_request(click).is_some(),
    ensures
        t1 == Task::ListenToSession(listener.player_events),
        t2 == Task::<Ev>::ProtPlay(prot_play::Action::Run(prot_play::Task::LoadMyTracks)),
        t3 == Task::<Ev>::ProtPlay(prot_play::Action::Send {
            request: prot_play::command_request(click).unwrap(),
            report_failure: true,
        }),
{
}

/// Without a session, the player screen's controls reach nothing: each click
/// is reported as the missing channel.
pub proof fn law_no_session_no_request<Sess, Ev, S: Clone, A: Clone>(
    a1: App<Sess, S, A>,
    a2: App<Sess, S, A>,
    t2: Task<Ev>,
    click: prot_play::Message,
    a3: App<Sess, S, A>,
    t3: Task<Ev>,
)
    requires
        a1.session_request_sender.is_none(),
        App::update_post(a1, Message::<Sess, Ev, S, A>::ChangeToView(ViewName::ProtPlay), a2, t2),
        App::update_post(a2, Message::<Sess, Ev, S, A>::ProtPlay(click), a3, t3),
        prot_play::command_request(click).is_some(),
    ensures
        t3 matches Task::ProtPlay(action)
            && prot_play::command_action(false, prot_play::command_request(click).unwrap(), action),
{
}

} // verus!
