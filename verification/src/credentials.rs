//! API tokens and where they are kept: a token handed in on the command
//! line wins and is remembered in the system keyring; otherwise the
//! keyring's stored token is used; failing both, the embedder asks the
//! user and stores what they type.

use vstd::prelude::*;

use crate::github::Token as GithubToken;
use crate::zenhub::Token as ZenhubToken;

verus! {

/// Name under which this application stores its tokens in the keyring.
pub const APPLICATION_NAME: &'static str = "zentui";

/// A token for one of the remote services, with the names the prompt and
/// the keyring use for it.
pub trait ServiceToken: Sized {
    /// Human-readable service name, for the prompt.
    fn name() -> &'static str;

    /// The keyring username the token is stored under.
    fn key() -> &'static str;

    /// The token text.
    fn as_str(&self) -> &str;

    /// Wraps stored or typed token text.
    fn from_text(text: String) -> Self;
}

impl ServiceToken for GithubToken {
    fn name() -> &'static str {
        "Github"
    }

    fn key() -> &'static str {
        "token@github"
    }

    fn as_str(&self) -> &str {
        self.0.as_str()
    }

    fn from_text(text: String) -> Self {
        GithubToken(text)
    }
}

impl ServiceToken for ZenhubToken {
    fn name() -> &'static str {
        "Zenhub"
    }

    fn key() -> &'static str {
        "token@zenhub"
    }

    fn as_str(&self) -> &str {
        self.0.as_str()
    }

    fn from_text(text: String) -> Self {
        ZenhubToken(text)
    }
}

/// Relies on keyring::Entry::new and set_password: stores the password
/// for the service/user pair; a keyring failure comes back as its display
/// text.
#[verifier::external_body]
fn keyring_set_password(service: &str, user: &str, password: &str) -> (r: Result<(), String>) {
    let entry = match keyring::Entry::new(service, user) {
        Ok(entry) => entry,
        Err(error) => return Err(format!("{}", error)),
    };
    match entry.set_password(password) {
        Ok(()) => Ok(()),
        Err(error) => Err(format!("{}", error)),
    }
}

/// Relies on keyring::Entry::new and get_password: reads the password
/// stored for the service/user pair; `Ok(None)` when the keyring has no
/// entry, any other failure as its display text.
#[verifier::external_body]
fn keyring_get_password(service: &str, user: &str) -> (r: Result<Option<String>, String>) {
    let entry = match keyring::Entry::new(service, user) {
        Ok(entry) => entry,
        Err(error) => return Err(format!("{}", error)),
    };
    match entry.get_password() {
        Ok(password) => Ok(Some(password)),
        Err(keyring::Error::NoEntry) => Ok(None),
        Err(error) => Err(format!("{}", error)),
    }
}

/// Stores a token in the system keyring under this application's name and
/// the service's key. What the keyring does depends on the machine: only
/// the failure text is promised back on failure.
pub fn set_keyring_token<T: ServiceToken>(token: &T) -> (r: Result<(), String>) {
    keyring_set_password(APPLICATION_NAME, T::key(), token.as_str())
}

/// Reads the token stored for a service: `Ok(None)` when the keyring has
/// none, the keyring's failure text otherwise.
pub fn get_keyring_token<T: ServiceToken>() -> (r: Result<Option<T>, String>) {
    match keyring_get_password(APPLICATION_NAME, T::key()) {
        Ok(Some(text)) => Ok(Some(T::from_text(text))),
        Ok(None) => Ok(None),
        Err(error) => Err(error),
    }
}

/// The token to use when one was given as an argument or one is stored:
/// the argument wins and is stored for the next session (a keyring
/// failure loses only that convenience and is returned for logging);
/// `None` means the embedder must ask the user.
pub fn from_arg_or_keyring<T: ServiceToken>(arg_token: Option<T>) -> (r: (
    Option<T>,
    Option<String>,
))
    ensures
        arg_token is Some ==> r.0 is Some,
{
    match arg_token {
        Some(token) => {
            let warning = match set_keyring_token(&token) {
                Ok(()) => None,
                Err(error) => Some(error),
            };
            (Some(token), warning)
        },
        None => match get_keyring_token::<T>() {
            Ok(Some(token)) => (Some(token), None),
            Ok(None) => (None, None),
            Err(error) => (None, Some(error)),
        },
    }
}

} // verus!
