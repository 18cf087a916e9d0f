//! The login screen: it starts the OAuth flow in the browser and hands the
//! token it yields on to the session.
use crate::compat::OAuthToken;
use crate::error::Error;
use crate::util::{are_access_scopes, parse_access_scopes, ACCESS_SCOPES};
use vstd::prelude::*;

verus! {

/// The login screen.
#[derive(Debug, Clone, Copy)]
pub struct AuthWizard {}

#[derive(Debug, Clone)]
pub enum Message {
    OpenLoginInBrowser,
    OAuthSuccessful(OAuthToken),
    Ignore,
}

/// Work that runs beside the screen and sends its messages back to it.
#[derive(Debug, Clone)]
pub enum Task {
    /// Open Spotify's login page in the browser, asking for the given scopes,
    /// and wait for the token. Where the OAuth client cannot be built, the
    /// outcome is as `AuthWizard::client_built` makes it and no token is asked
    /// for; else it is as `AuthWizard::oauth_outcome` makes it.
    SetupSpotifyAuth { scopes: Vec<String> },
}

/// What the screen asks of its surroundings after a message.
#[derive(Debug)]
pub enum Action {
    /// Execute task and propagate message to AuthWizard
    Run(Task),
    /// Start session with given OAuthToken
    AuthenticateWithToken(OAuthToken),
    Nothing,
}

/// Whether `r` is what the login screen asks for on a message: the OAuth
/// flow with the client's scopes, the login with the token, or nothing.
pub open spec fn update_action(message: Message, r: Action) -> bool {
    match message {
        Message::OpenLoginInBrowser => r matches Action::Run(Task::SetupSpotifyAuth { scopes })
            && are_access_scopes(scopes),
        Message::OAuthSuccessful(token) => r == Action::AuthenticateWithToken(token),
        Message::Ignore => r == Action::Nothing,
    }
}

impl AuthWizard {
    pub fn new() -> (r: AuthWizard)
        ensures
            r == (AuthWizard {}),
    {
        AuthWizard {}
    }

    /// The login button starts the OAuth flow; a token starts the session.
    pub fn update(&mut self, message: Message) -> (r: Action)
        ensures
            *final(self) == *old(self),
            update_action(message, r),
    {
        match message {
            Message::OpenLoginInBrowser => Action::Run(self.setup_spotify_auth()),
            Message::OAuthSuccessful(token) => Action::AuthenticateWithToken(token),
            Message::Ignore => Action::Nothing,
        }
    }

    /// A failed login is reported (by the caller) and otherwise ignored.
    pub fn handle_error(err: Error) -> (r: Message)
        ensures
            r == Message::Ignore,
    {
        Message::Ignore
    }

    /// The OAuth flow in the browser, asking for the client's scopes.
    pub fn setup_spotify_auth(&self) -> (r: Task)
        ensures
            r matches Task::SetupSpotifyAuth { scopes } && are_access_scopes(scopes),
    {
        Task::SetupSpotifyAuth { scopes: parse_access_scopes(ACCESS_SCOPES) }
    }

    /// The OAuth client, once built, goes on to ask for the token; where it
    /// could not be built, the flow ends with the failure's message.
    pub fn client_built<C>(built: Result<C, Error>) -> (r: Result<C, Message>)
        ensures
            match built {
                Ok(client) => r == Ok::<C, Message>(client),
                Err(_) => r == Err::<C, Message>(Message::Ignore),
            },
    {
        match built {
            Ok(client) => Ok(client),
            Err(err) => Err(Self::oauth_outcome(Err(err))),
        }
    }

    /// The message with which the OAuth flow ends: its token, or nothing to do
    /// where it failed.
    pub fn oauth_outcome(result: Result<OAuthToken, Error>) -> (r: Message)
        ensures
            match result {
                Ok(token) => r == Message::OAuthSuccessful(token),
                Err(_) => r == Message::Ignore,
            },
    {
        match result {
            Ok(token) => Message::OAuthSuccessful(token),
            Err(err) => Self::handle_error(err),
        }
    }
}

} // verus!
