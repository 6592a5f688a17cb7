//! What can go wrong while a word is looked up.

use vstd::prelude::*;
use crate::chars::{decimal, decimal_string};

verus! {

/// A failed request to the dictionary service.
#[derive(Debug, Clone, PartialEq, Eq)]
pub enum ApiError {
    /// The service could not be reached, or its reply could not be read.
    Transport(String),
    /// The service answered with a status that is not a success.
    Upstream(u16),
    /// The body of the reply does not have the expected shape.
    Parse(String),
    /// The reply holds no phonetic transcription.
    NoPhonetics,
}

impl ApiError {
    /// The text that tells a user what went wrong.
    pub open spec fn described(self) -> Seq<char> {
        match self {
            ApiError::Transport(reason) => "Request failed: "@ + reason@,
            ApiError::Upstream(status) => "HTTP status "@ + decimal(status as nat),
            ApiError::Parse(reason) => "Unexpected response: "@ + reason@,
            ApiError::NoPhonetics => "No IPA phonetics"@,
        }
    }

    /// The text that tells a user what went wrong.
    pub fn message(&self) -> (out: String)
        ensures
            out@ == self.described(),
    {
        match self {
            ApiError::Transport(reason) => {
                let mut out = "Request failed: ".to_owned();
                out.append(reason.as_str());
                out
            },
            ApiError::Upstream(status) => {
                let mut out = "HTTP status ".to_owned();
                let code = decimal_string(*status as usize);
                out.append(code.as_str());
                out
            },
            ApiError::Parse(reason) => {
                let mut out = "Unexpected response: ".to_owned();
                out.append(reason.as_str());
                out
            },
            ApiError::NoPhonetics => "No IPA phonetics".to_owned(),
        }
    }
}

/// A request that cannot be made for want of input.
#[derive(Debug, Clone, Copy, PartialEq, Eq, Structural)]
pub enum ConfigError {
    /// Neither the command line nor the environment gives an API key.
    MissingKey,
    /// No word is given, and none is asked of the service.
    NoWord,
}

impl ConfigError {
    /// The text that tells a user what went wrong.
    pub open spec fn described(self) -> Seq<char> {
        match self {
            ConfigError::MissingKey => "`WORDNIK_API_KEY` environment variable not found"@,
            ConfigError::NoWord =>
                "No word supplied. `--random` can be used to search for a random word"@,
        }
    }

    /// The text that tells a user what went wrong.
    pub fn message(&self) -> (out: String)
        ensures
            out@ == self.described(),
    {
        match self {
            ConfigError::MissingKey => "`WORDNIK_API_KEY` environment variable not found".to_owned(),
            ConfigError::NoWord =>
                "No word supplied. `--random` can be used to search for a random word".to_owned(),
        }
    }
}

} // verus!
