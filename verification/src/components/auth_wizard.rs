//! The first form of the login screen, which only reports the token it
//! obtains.
use crate::compat::OAuthToken;
use crate::error::Error;
use crate::util::{are_access_scopes, parse_access_scopes, ACCESS_SCOPES};
use vstd::prelude::*;

verus! {

/// The login screen.
#[derive(Debug, Clone, Copy)]
pub struct AuthWizard {}

#[derive(Debug, Clone)]
pub enum Message {
    OpenLoginInBrowser,
    OAuthSuccessful(OAuthToken),
    OAuthFailure,
}

/// Work that runs beside the screen and sends its messages back to it.
#[derive(Debug, Clone)]
pub enum Task {
    /// Open Spotify's login page in the browser, asking for the given scopes,
    /// and wait for the token. Where the OAuth client cannot be built, the
    /// outcome is as `AuthWizard::client_built` makes it and no token is asked
    /// for; else it is as `AuthWizard::oauth_outcome` makes it.
    SetupSpotifyAuth { scopes: Vec<String> },
    /// Do nothing.
    Idle,
}

#[derive(Debug)]
pub enum Action {
    Run(Task),
    Nothing,
}

impl AuthWizard {
    pub fn new() -> (r: AuthWizard)
        ensures
            r == (AuthWizard {}),
    {
        AuthWizard {}
    }

    /// The login button starts the OAuth flow; its outcome asks for nothing.
    pub fn update(&mut self, message: Message) -> (r: Action)
        ensures
            *final(self) == *old(self),
            message matches Message::OpenLoginInBrowser ==> (r matches Action::Run(Task::SetupSpotifyAuth { scopes })
                && are_access_scopes(scopes)),
            !(message matches Message::OpenLoginInBrowser) ==> r == Action::Nothing,
    {
        match message {
            Message::OpenLoginInBrowser => Action::Run(self.setup_spotify_auth()),
            Message::OAuthSuccessful(_) => Action::Nothing,
            Message::OAuthFailure => Action::Nothing,
        }
    }

    /// A task whose preparation failed becomes no task.
    pub fn handle_errors(&self, f: Result<Task, Error>) -> (r: Task)
        ensures
            match f {
                Ok(t) => r == t,
                Err(_) => r == Task::Idle,
            },
    {
        match f {
            Ok(t) => t,
            Err(_) => Task::Idle,
        }
    }

    /// The OAuth flow in the browser, asking for the client's scopes.
    pub fn setup_spotify_auth(&self) -> (r: Task)
        ensures
            r matches Task::SetupSpotifyAuth { scopes } && are_access_scopes(scopes),
    {
        Task::SetupSpotifyAuth { scopes: parse_access_scopes(ACCESS_SCOPES) }
    }

    /// The OAuth client, once built, goes on to ask for the token; where it
    /// could not be built, the flow ends with the failure's message.
    pub fn client_built<C>(built: Result<C, Error>) -> (r: Result<C, Message>)
        ensures
            match built {
                Ok(client) => r == Ok::<C, Message>(client),
                Err(_) => r == Err::<C, Message>(Message::OAuthFailure),
            },
    {
        match built {
            Ok(client) => Ok(client),
            Err(err) => Err(Self::oauth_outcome(Err(err))),
        }
    }

    /// The message with which the OAuth flow ends: its token, or its failure.
    pub fn oauth_outcome(result: Result<OAuthToken, Error>) -> (r: Message)
        ensures
            match result {
                Ok(token) => r == Message::OAuthSuccessful(token),
                Err(_) => r == Message::OAuthFailure,
            },
    {
        match result {
            Ok(token) => Message::OAuthSuccessful(token),
            Err(_) => Message::OAuthFailure,
        }
    }
}

} // verus!
