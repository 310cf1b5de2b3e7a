//! What the Last.fm sink needs from this library: credentials that are
//! complete, and scrobbles built the way the sink expects them.
//!
//! Talking to Last.fm is the caller's part.

use crate::text::text_of;
use rustfm_scrobble::Scrobble;
use vstd::prelude::*;

verus! {

/// The environment variable that holds the user's name.
pub const USERNAME_VAR: &'static str = "LASTFM_USERNAME";

/// The environment variable that holds the user's password.
pub const PASSWORD_VAR: &'static str = "LASTFM_PASSWORD";

/// The environment variable that holds the API key.
pub const API_KEY_VAR: &'static str = "LASTFM_API_KEY";

/// The environment variable that holds the API secret.
pub const API_SECRET_VAR: &'static str = "LASTFM_API_SECRET";

/// What follows a variable's name in the complaint that it is not set.
pub const NOT_FOUND_SUFFIX: &'static str = " not found in environment";

/// What opens the message of a scrobble that was turned down.
pub const SCROBBLE_FAILURE_PREFIX: &'static str = "Scrobbling failed: ";

/// Why no session with Last.fm could be set up.
#[derive(Debug, Clone, PartialEq, Eq)]
pub enum LastFmError {
    /// A credential is not set; which one.
    MissingCredentials(String),
    /// Last.fm turned the credentials down; its message.
    AuthenticationError(String),
}

/// The credentials of a Last.fm user and application.
#[derive(Debug, Clone, PartialEq, Eq)]
pub struct LastFmAuth {
    username: String,
    password: String,
    api_key: String,
    api_secret: String,
}

/// A [`LastFmAuth`] as a mathematical value.
pub struct AuthView {
    pub username: Seq<char>,
    pub password: Seq<char>,
    pub api_key: Seq<char>,
    pub api_secret: Seq<char>,
}

/// A session with Last.fm, as far as this library knows of it: the user it
/// was authenticated for.
#[derive(Debug, Clone, PartialEq, Eq)]
pub struct LastFm {
    username: String,
}

#[verifier::external_type_specification]
#[verifier::external_body]
pub struct ExScrobble(Scrobble);

/// The artist, the track and the album that a scrobble names.
pub uninterp spec fn scrobble_names(scrobble: Scrobble) -> (Seq<char>, Seq<char>, Seq<char>);

/// `Scrobble::new`.
///
/// Believed: the scrobble names the artist, the track and the album it was
/// made with.
#[verifier::external_body]
fn new_scrobble(artist: &str, track: &str, album: &str) -> (scrobble: Scrobble)
    ensures
        scrobble_names(scrobble) == (artist@, track@, album@),
{
    Scrobble::new(artist, track, album)
}

/// The characters of an optional string slice.
pub open spec fn slice_text(value: Option<&str>) -> Option<Seq<char>> {
    match value {
        Some(text) => Some(text@),
        None => None,
    }
}

/// The first variable that is not set, in the order user name, password,
/// API key, API secret.
pub open spec fn first_missing(
    username: Option<String>,
    password: Option<String>,
    api_key: Option<String>,
    api_secret: Option<String>,
) -> Option<Seq<char>> {
    if username is None {
        Some(USERNAME_VAR@)
    } else if password is None {
        Some(PASSWORD_VAR@)
    } else if api_key is None {
        Some(API_KEY_VAR@)
    } else if api_secret is None {
        Some(API_SECRET_VAR@)
    } else {
        None
    }
}

/// The album that a scrobble names for a track whose album may be unknown.
pub open spec fn album_or_empty(album: Option<Seq<char>>) -> Seq<char> {
    match album {
        Some(name) => name,
        None => Seq::empty(),
    }
}

impl LastFmError {
    /// The error in words.
    pub fn message(&self) -> (text: String)
        ensures
            text@ == match self {
                LastFmError::MissingCredentials(_) => "Missing Last.fm credentials in environment"@,
                LastFmError::AuthenticationError(_) => "Authentication failed"@,
            },
    {
        match self {
            LastFmError::MissingCredentials(_) => String::from_str(
                "Missing Last.fm credentials in environment",
            ),
            LastFmError::AuthenticationError(_) => String::from_str("Authentication failed"),
        }
    }
}

impl View for LastFmAuth {
    type V = AuthView;

    closed spec fn view(&self) -> AuthView {
        AuthView {
            username: self.username@,
            password: self.password@,
            api_key: self.api_key@,
            api_secret: self.api_secret@,
        }
    }
}

impl LastFmAuth {
    /// The credentials, from the values of the four environment variables.
    ///
    /// All four must be set. The error names the first that is not.
    pub fn from_env(
        username: Option<String>,
        password: Option<String>,
        api_key: Option<String>,
        api_secret: Option<String>,
    ) -> (result: Result<Self, LastFmError>)
        ensures
            match result {
                Ok(auth) => {
                    &&& first_missing(username, password, api_key, api_secret) is None
                    &&& Some(auth@.username) == text_of(username)
                    &&& Some(auth@.password) == text_of(password)
                    &&& Some(auth@.api_key) == text_of(api_key)
                    &&& Some(auth@.api_secret) == text_of(api_secret)
                },
                Err(LastFmError::MissingCredentials(complaint)) => {
                    &&& first_missing(username, password, api_key, api_secret) is Some
                    &&& complaint@ == first_missing(
                        username,
                        password,
                        api_key,
                        api_secret,
                    )->Some_0 + NOT_FOUND_SUFFIX@
                },
                Err(LastFmError::AuthenticationError(_)) => false,
            },
    {
        let username = match username {
            Some(value) => value,
            None => { return Err(missing(USERNAME_VAR)); },
        };
        let password = match password {
            Some(value) => value,
            None => { return Err(missing(PASSWORD_VAR)); },
        };
        let api_key = match api_key {
            Some(value) => value,
            None => { return Err(missing(API_KEY_VAR)); },
        };
        let api_secret = match api_secret {
            Some(value) => value,
            None => { return Err(missing(API_SECRET_VAR)); },
        };
        Ok(LastFmAuth { username, password, api_key, api_secret })
    }

    pub fn username(&self) -> (value: &String)
        ensures
            value@ == self@.username,
    {
        &self.username
    }

    pub fn password(&self) -> (value: &String)
        ensures
            value@ == self@.password,
    {
        &self.password
    }

    pub fn api_key(&self) -> (value: &String)
        ensures
            value@ == self@.api_key,
    {
        &self.api_key
    }

    pub fn api_secret(&self) -> (value: &String)
        ensures
            value@ == self@.api_secret,
    {
        &self.api_secret
    }
}

/// The complaint that `variable` is not set.
fn missing(variable: &str) -> (error: LastFmError)
    ensures
        error matches LastFmError::MissingCredentials(complaint) && complaint@ == variable@
            + NOT_FOUND_SUFFIX@,
{
    LastFmError::MissingCredentials(String::from_str(variable).concat(NOT_FOUND_SUFFIX))
}

impl View for LastFm {
    type V = Seq<char>;

    /// The name of the user that the session was authenticated for.
    closed spec fn view(&self) -> Seq<char> {
        self.username@
    }
}

impl LastFm {
    /// The session that an authentication with `auth` set up, or the error
    /// with which Last.fm turned it down.
    pub fn new(auth: &LastFmAuth, outcome: Result<(), String>) -> (result: Result<Self, LastFmError>)
        ensures
            match (outcome, result) {
                (Ok(_), Ok(session)) => session@ == auth@.username,
                (Err(cause), Err(LastFmError::AuthenticationError(message))) => message == cause,
                _ => false,
            },
    {
        match outcome {
            Ok(()) => Ok(LastFm { username: auth.username.clone() }),
            Err(cause) => Err(LastFmError::AuthenticationError(cause)),
        }
    }

    /// The user that the session was authenticated for.
    pub fn username(&self) -> (value: &String)
        ensures
            value@ == self@,
    {
        &self.username
    }

    /// The scrobble to submit for a play: it names the artist and the
    /// title, and the album if one is known.
    pub fn scrobble(&self, artist: &str, title: &str, album: Option<&str>) -> (scrobble: Scrobble)
        ensures
            scrobble_names(scrobble) == (artist@, title@, album_or_empty(slice_text(album))),
    {
        match album {
            Some(name) => new_scrobble(artist, title, name),
            None => {
                let empty = "";
                proof {
                    reveal_strlit("");
                    assert(empty@ =~= Seq::<char>::empty());
                }
                new_scrobble(artist, title, empty)
            },
        }
    }

    /// What to tell the caller after a scrobble was submitted: a failure is
    /// reported under a fixed prefix.
    pub fn scrobble_outcome(outcome: Result<(), String>) -> (result: Result<(), String>)
        ensures
            match (outcome, result) {
                (Ok(_), Ok(_)) => true,
                (Err(cause), Err(message)) => message@ == SCROBBLE_FAILURE_PREFIX@ + cause@,
                _ => false,
            },
    {
        match outcome {
            Ok(()) => Ok(()),
            Err(cause) => Err(String::from_str(SCROBBLE_FAILURE_PREFIX).concat(cause.as_str())),
        }
    }
}

} // verus!
