//! The server's settings, read once at start-up and never changed.

use vstd::prelude::*;
use vstd::string::*;
use crate::text::{parse_i64, parsed_i64};

verus! {

/// The signing secret and the lifetime of a token. A value that could not
/// be had at start-up is absent, and every call that needs it fails.
#[derive(Clone, PartialEq, Eq)]
pub struct Configuration {
    /// The secret that signs and checks tokens.
    pub secret_key: Option<Vec<u8>>,
    /// For how many seconds a token stays valid after it was issued.
    pub token_lifetime_seconds: Option<i64>,
}

/// The settings as contracts speak of them.
pub struct ConfigurationView {
    pub secret_key: Option<Seq<u8>>,
    pub token_lifetime_seconds: Option<i64>,
}

impl View for Configuration {
    type V = ConfigurationView;

    open spec fn view(&self) -> ConfigurationView {
        ConfigurationView {
            secret_key: match self.secret_key {
                Some(key) => Some(key@),
                None => None,
            },
            token_lifetime_seconds: self.token_lifetime_seconds,
        }
    }
}

impl Configuration {
    /// The settings with both values present.
    pub fn new(secret_key: Vec<u8>, token_lifetime_seconds: i64) -> (config: Configuration)
        ensures
            config@.secret_key == Some(secret_key@),
            config@.token_lifetime_seconds == Some(token_lifetime_seconds),
    {
        Configuration {
            secret_key: Some(secret_key),
            token_lifetime_seconds: Some(token_lifetime_seconds),
        }
    }

    /// The settings as two texts give them, each absent where the text is.
    /// The secret is the bytes of its text; the lifetime is the signed
    /// decimal number that its text writes, and absent where it writes none.
    pub fn from_values(secret: Option<&str>, lifetime: Option<&str>) -> (config: Configuration)
        ensures
            config@.secret_key == match secret {
                Some(text) => Some(text.spec_bytes()),
                None => None,
            },
            config@.token_lifetime_seconds == match lifetime {
                Some(text) => parsed_i64(text@),
                None => None,
            },
    {
        let secret_key = match secret {
            Some(text) => Some(text.as_bytes_vec()),
            None => None,
        };
        let token_lifetime_seconds = match lifetime {
            Some(text) => parse_i64(text),
            None => None,
        };
        Configuration { secret_key, token_lifetime_seconds }
    }

    /// A copy with the same values.
    pub fn duplicate(&self) -> (copy: Configuration)
        ensures
            copy@ == self@,
    {
        let secret_key = match &self.secret_key {
            Some(key) => {
                let mut bytes: Vec<u8> = Vec::new();
                let mut i: usize = 0;
                while i < key.len()
                    invariant
                        i <= key.len(),
                        bytes@ == key@.subrange(0, i as int),
                    decreases key.len() - i,
                {
                    bytes.push(key[i]);
                    i += 1;
                }
                assert(bytes@ =~= key@);
                Some(bytes)
            },
            None => None,
        };
        Configuration { secret_key, token_lifetime_seconds: self.token_lifetime_seconds }
    }
}

} // verus!
