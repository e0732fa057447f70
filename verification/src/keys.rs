//! The operator's keypair: made anew, or read from the configuration.

use vstd::prelude::*;
use crate::config::NostaroConfig;

verus! {

/// A keypair of the protocol library. Nothing inside it is visible here.
#[verifier::external_type_specification]
#[verifier::external_body]
pub struct ExKeys(nostr_sdk::Keys);

/// The protocol library's error for keys. Nothing inside it is visible here.
#[verifier::external_type_specification]
#[verifier::external_body]
pub struct ExKeyError(nostr_sdk::key::Error);

/// Whether `nostr_sdk::Keys::parse` reads a secret key from `text`.
pub uninterp spec fn secret_key_parses(text: Seq<char>) -> bool;

/// `nostr_sdk::Keys::generate` draws a keypair from the operating system's
/// randomness. Nothing is claimed of the keypair.
pub assume_specification[ nostr_sdk::Keys::generate ]() -> (keys: nostr_sdk::Keys);

/// `nostr_sdk::Keys::parse` reads a secret key, in hex or in its `nsec` form,
/// and builds the keypair. Whether it succeeds depends on the text alone,
/// which is all that is claimed.
pub assume_specification[ nostr_sdk::Keys::parse ](secret_key: &str) -> (parsed: Result<
    nostr_sdk::Keys,
    nostr_sdk::key::Error,
>)
    ensures
        parsed is Ok <==> secret_key_parses(secret_key@),
;

/// Why no keypair could be had from a configuration.
#[derive(Debug, Clone, Copy, PartialEq, Eq)]
pub enum KeyError {
    /// The configuration holds no secret key.
    Missing,
    /// The secret key of the configuration cannot be read.
    Invalid,
}

impl KeyError {
    /// The error in words.
    pub fn message(&self) -> (text: String)
        ensures
            text@ == (match *self {
                KeyError::Missing => "No secret key found in config. Run `nostaro init` first."@,
                KeyError::Invalid => "Failed to parse secret key from config"@,
            }),
    {
        match self {
            KeyError::Missing => "No secret key found in config. Run `nostaro init` first.".to_owned(),
            KeyError::Invalid => "Failed to parse secret key from config".to_owned(),
        }
    }
}

/// What reading the keypair of a configuration comes to: no key, a key that
/// cannot be read, or success.
pub open spec fn key_outcome(secret_key: Option<String>) -> Option<KeyError> {
    match secret_key {
        None => Some(KeyError::Missing),
        Some(text) => if secret_key_parses(text@) {
            None
        } else {
            Some(KeyError::Invalid)
        },
    }
}

/// A new keypair.
pub fn generate_keys() -> (keys: nostr_sdk::Keys) {
    nostr_sdk::Keys::generate()
}

/// The keypair of the secret key that `config` holds.
pub fn keys_from_config(config: &NostaroConfig) -> (keys: Result<nostr_sdk::Keys, KeyError>)
    ensures
        match keys {
            Ok(_) => key_outcome(config.secret_key) == None::<KeyError>,
            Err(error) => key_outcome(config.secret_key) == Some(error),
        },
{
    match &config.secret_key {
        None => Err(KeyError::Missing),
        Some(text) => match nostr_sdk::Keys::parse(text.as_str()) {
            Ok(keys) => Ok(keys),
            Err(_) => Err(KeyError::Invalid),
        },
    }
}

} // verus!
