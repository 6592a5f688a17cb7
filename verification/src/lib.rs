//! Dictionary lookup: the pure core of a command-line client.
//!
//! The crate decides everything about a lookup but does none of its
//! input or output. It says which addresses to ask ([`api`]), judges what
//! came back, puts the replies together into a [`WordInfo`], and lays that
//! out in lines ([`present`]).

pub mod api;
pub mod chars;
pub mod cli;
pub mod colour;
pub mod definition;
pub mod error;
pub mod present;
pub mod source;
pub mod tags;
pub mod word_info;

pub use api::{
    decoded, get_data, get_phonetics, get_random_word, get_related, get_wotd, Pronunciation,
    RelatedWords, RelationshipType, Reply, WordRecord,
};
pub use cli::{Args, WordSource};
pub use definition::{Definition, Example};
pub use error::{ApiError, ConfigError};
pub use present::{announce, render, report, Options};
pub use source::SourceDict;
pub use tags::remove_tags;
pub use word_info::{Syllable, WordInfo};
