//! The stored configuration and the choice of the API key.

use vstd::prelude::*;
use vstd::string::*;

verus! {

/// What the client keeps between runs.
#[derive(Debug)]
pub struct Config {
    pub api_key: Option<String>,
}

impl Default for Config {
    fn default() -> (r: Config)
        ensures
            r.api_key is None,
    {
        Config { api_key: None }
    }
}

/// A key that can be used: one that is there and not empty.
pub open spec fn usable(value: Option<String>) -> Option<Seq<char>> {
    match value {
        Some(key) => if key@.len() > 0 {
            Some(key@)
        } else {
            None
        },
        None => None,
    }
}

/// The key that the environment offers, where it offers a usable one. The
/// stored configuration is read only where it does not.
pub fn env_api_key(value: Option<String>) -> (r: Option<String>)
    ensures
        r is Some == usable(value) is Some,
        r matches Some(key) ==> Some(key@) == usable(value),
{
    match value {
        Some(key) => if key.as_str().is_empty() {
            None
        } else {
            Some(key)
        },
        None => None,
    }
}

/// The stored key, where the configuration holds a usable one; `None`
/// means that the user has not authenticated.
pub fn api_key(config: &Config) -> (r: Option<String>)
    ensures
        r is Some == usable(config.api_key) is Some,
        r matches Some(key) ==> Some(key@) == usable(config.api_key),
{
    match &config.api_key {
        Some(key) => if key.as_str().is_empty() {
            None
        } else {
            Some(key.clone())
        },
        None => None,
    }
}

/// What a user without a key is told.
pub fn not_authenticated() -> (r: &'static str)
    ensures
        r@ == "Not authenticated. Run `linear auth` or set LINEAR_API_KEY."@,
{
    "Not authenticated. Run `linear auth` or set LINEAR_API_KEY."
}

} // verus!
