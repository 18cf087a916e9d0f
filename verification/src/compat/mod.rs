//! The values that pass between the client and librespot, held as plain data.
use crate::error::Error;
use librespot_core::Error as CoreError;
use librespot_core::SpotifyUri;
use std::time::Instant;
use vstd::prelude::*;
use vstd::string::*;

verus! {

/// How a set of credentials authenticates, as librespot's protocol numbers it.
#[derive(Debug, Clone, Copy, PartialEq, Eq, Structural)]
pub enum AuthenticationType {
    UserPass,
    StoredSpotifyCredentials,
    StoredFacebookCredentials,
    SpotifyToken,
    FacebookToken,
}

/// Login credentials: an optional user name, how they authenticate, and the
/// secret they carry.
#[derive(Debug)]
pub struct Credentials {
    pub username: Option<String>,
    pub auth_type: AuthenticationType,
    pub auth_data: Vec<u8>,
}

/// Credentials as plain values.
pub struct CredentialsView {
    pub username: Option<Seq<char>>,
    pub auth_type: AuthenticationType,
    pub auth_data: Seq<u8>,
}

impl View for Credentials {
    type V = CredentialsView;

    open spec fn view(&self) -> CredentialsView {
        CredentialsView {
            username: match self.username {
                Some(u) => Some(u@),
                None => None,
            },
            auth_type: self.auth_type,
            auth_data: self.auth_data@,
        }
    }
}

impl Clone for Credentials {
    fn clone(&self) -> (r: Credentials)
        ensures
            r@ == self@,
    {
        let username = match &self.username {
            Some(u) => Some(u.clone()),
            None => None,
        };
        Credentials { username, auth_type: self.auth_type, auth_data: self.auth_data.clone() }
    }
}

impl Credentials {
    /// Credentials that log in with an OAuth access token: no user name, and
    /// the token's UTF-8 bytes as the secret.
    pub fn with_access_token(token: &str) -> (r: Credentials)
        ensures
            r.username.is_none(),
            r.auth_type == AuthenticationType::SpotifyToken,
            r.auth_data@ == vstd::utf8::encode_utf8(token@),
    {
        Credentials {
            username: None,
            auth_type: AuthenticationType::SpotifyToken,
            auth_data: token.as_bytes_vec(),
        }
    }
}

/// The credentials a connected session hands back for later logins: its user
/// name and stored authentication data.
pub fn stored_credentials(username: String, auth_data: Vec<u8>) -> (r: Credentials)
    ensures
        r.username.is_some(),
        r.username.unwrap()@ == username@,
        r.auth_type == AuthenticationType::StoredSpotifyCredentials,
        r.auth_data@ == auth_data@,
{
    Credentials {
        username: Some(username),
        auth_type: AuthenticationType::StoredSpotifyCredentials,
        auth_data,
    }
}

/// An OAuth token as the login flow returns it.
#[derive(Debug, Clone)]
pub struct OAuthToken {
    pub access_token: String,
    pub refresh_token: String,
    pub expires_at: Instant,
    pub token_type: String,
    pub scopes: Vec<String>,
}

/// librespot's URI of a Spotify item, carried through unopened.
#[verifier::external_type_specification]
#[verifier::external_body]
pub struct ExSpotifyUri(SpotifyUri);

/// librespot's error type, carried through unopened.
#[verifier::external_type_specification]
#[verifier::external_body]
pub struct ExLibrespotError(CoreError);

/// Whether librespot's `SpotifyUri::from_uri` accepts a text.
pub uninterp spec fn spotify_uri_accepted(uri: Seq<char>) -> bool;

/// The URI that librespot's `SpotifyUri::from_uri` makes of a text it accepts.
pub uninterp spec fn parsed_spotify_uri(uri: Seq<char>) -> SpotifyUri;

/// Whether a text begins with the scheme `spotify:`.
pub open spec fn has_spotify_scheme(uri: Seq<char>) -> bool {
    uri.len() >= 8 && uri.subrange(0, 8) == "spotify:"@
}

/// Calls librespot's `SpotifyUri::from_uri`. Claims that it succeeds exactly
/// on the texts it accepts, which depends on the text alone, and only on texts
/// whose first `:`-separated part is `spotify` and that have a second part;
/// the parsed URI is a function of the text alone. Which item it names is not
/// stated.
#[verifier::external_body]
fn parse_spotify_uri(uri: &str) -> (r: Result<SpotifyUri, CoreError>)
    ensures
        r.is_ok() == spotify_uri_accepted(uri@),
        r matches Ok(u) ==> u == parsed_spotify_uri(uri@),
        r.is_ok() ==> has_spotify_scheme(uri@),
{
    SpotifyUri::from_uri(uri)
}

/// Calls `to_string` on a librespot error. Nothing is claimed of the text.
#[verifier::external_body]
fn librespot_error_text(error: &CoreError) -> (r: String) {
    error.to_string()
}

/// Parses a Spotify URI; a rejected text becomes a librespot error.
pub fn spotify_uri_from_str(uri: &str) -> (r: Result<SpotifyUri, Error>)
    ensures
        r.is_ok() == spotify_uri_accepted(uri@),
        r matches Ok(u) ==> u == parsed_spotify_uri(uri@),
        r.is_ok() ==> has_spotify_scheme(uri@),
        r matches Err(e) ==> e.kind == crate::error::ErrorKind::LibrespotError && e.situation.is_none(),
{
    match parse_spotify_uri(uri) {
        Ok(parsed) => Ok(parsed),
        Err(e) => {
            let text = librespot_error_text(&e);
            Err(Error::librespot(text.as_str()))
        },
    }
}

/// The Spotify URI of the track with the given ID.
pub open spec fn track_uri_text(id: Seq<char>) -> Seq<char> {
    "spotify:track:"@ + id
}

/// The Spotify URI of the track with the given ID, as the web API forms it.
pub fn track_uri(id: &str) -> (r: String)
    ensures
        r@ == track_uri_text(id@),
{
    let mut uri = String::from_str("spotify:track:");
    uri.append(id);
    uri
}

} // verus!
