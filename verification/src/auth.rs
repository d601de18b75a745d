//! Where the credentials come from: the command-line flag, else the
//! environment variable (when not empty), else the configuration file.

use vstd::prelude::*;
use crate::chars::string_of;
use crate::config::Config;

verus! {

/// No credential was found in any of the three places.
#[derive(Clone, Copy, Debug, PartialEq, Eq, Structural)]
pub enum AuthError {
    /// No API key: not as a flag, not in `LIMITLESS_API_KEY`, not in the file.
    NoApiKey,
    /// No private key: not as a flag, not in `LIMITLESS_PRIVATE_KEY`, not in the file.
    NoPrivateKey,
}

/// The credential that wins: the flag, else a non-empty environment value,
/// else the configuration file's.
pub open spec fn resolved_key(
    flag: Option<Seq<char>>,
    env: Option<Seq<char>>,
    stored: Option<Seq<char>>,
) -> Option<Seq<char>> {
    match flag {
        Some(f) => Some(f),
        None => match env {
            Some(e) => if e.len() > 0 {
                Some(e)
            } else {
                stored
            },
            None => stored,
        },
    }
}

/// The view of an optional text.
pub open spec fn opt_view(s: Option<&str>) -> Option<Seq<char>> {
    match s {
        Some(t) => Some(t@),
        None => None,
    }
}

/// The view of an optional string.
pub open spec fn opt_string_view(s: Option<String>) -> Option<Seq<char>> {
    match s {
        Some(t) => Some(t@),
        None => None,
    }
}

fn resolve(flag: Option<&str>, env_value: Option<&str>, stored: &Option<String>) -> (res: Option<
    String,
>)
    ensures
        match res {
            Some(k) => resolved_key(opt_view(flag), opt_view(env_value), opt_string_view(*stored))
                == Some(k@),
            None => resolved_key(opt_view(flag), opt_view(env_value), opt_string_view(*stored))
                is None,
        },
{
    if let Some(key) = flag {
        return Some(string_of(key));
    }
    if let Some(key) = env_value {
        if !key.is_empty() {
            return Some(string_of(key));
        }
    }
    match stored {
        Some(k) => Some(k.clone()),
        None => None,
    }
}

/// The API key: the flag, else `LIMITLESS_API_KEY` when set and not empty,
/// else the configuration file's key.
pub fn resolve_api_key(cli_flag: Option<&str>, env_value: Option<&str>, config: Option<&Config>) -> (res: Result<String, AuthError>)
    ensures
        ({
            let stored = match config {
                Some(c) => opt_string_view(c.api_key),
                None => None,
            };
            match resolved_key(opt_view(cli_flag), opt_view(env_value), stored) {
                Some(k) => res matches Ok(r) && r@ == k,
                None => res == Err::<String, AuthError>(AuthError::NoApiKey),
            }
        }),
{
    let none: Option<String> = None;
    let stored = match config {
        Some(c) => &c.api_key,
        None => &none,
    };
    match resolve(cli_flag, env_value, stored) {
        Some(k) => Ok(k),
        None => Err(AuthError::NoApiKey),
    }
}

/// The private key: the flag, else `LIMITLESS_PRIVATE_KEY` when set and not
/// empty, else the configuration file's key.
pub fn resolve_private_key(cli_flag: Option<&str>, env_value: Option<&str>, config: Option<&Config>) -> (res: Result<String, AuthError>)
    ensures
        ({
            let stored = match config {
                Some(c) => opt_string_view(c.private_key),
                None => None,
            };
            match resolved_key(opt_view(cli_flag), opt_view(env_value), stored) {
                Some(k) => res matches Ok(r) && r@ == k,
                None => res == Err::<String, AuthError>(AuthError::NoPrivateKey),
            }
        }),
{
    let none: Option<String> = None;
    let stored = match config {
        Some(c) => &c.private_key,
        None => &none,
    };
    match resolve(cli_flag, env_value, stored) {
        Some(k) => Ok(k),
        None => Err(AuthError::NoPrivateKey),
    }
}

/// A flag always wins over the environment and the file.
pub proof fn law_flag_wins(flag: Seq<char>, env: Option<Seq<char>>, stored: Option<Seq<char>>)
    ensures
        resolved_key(Some(flag), env, stored) == Some(flag),
{
}

/// Without a flag, a non-empty environment value wins over the file.
pub proof fn law_env_wins_over_file(env: Seq<char>, stored: Option<Seq<char>>)
    requires
        env.len() > 0,
    ensures
        resolved_key(None, Some(env), stored) == Some(env),
{
}

/// An empty environment value counts as unset.
pub proof fn law_empty_env_ignored(stored: Option<Seq<char>>)
    ensures
        resolved_key(None, Some(Seq::empty()), stored) == resolved_key(None, None, stored),
{
}

} // verus!
