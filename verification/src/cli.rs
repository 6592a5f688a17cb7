//! What a user asks for on the command line, and what follows from it.

use vstd::prelude::*;
use crate::error::ConfigError;
use crate::present::Options;
use crate::source::SourceDict;

verus! {

/// How many definitions are shown where the user says nothing of it.
pub const DEFAULT_MAX: usize = 10;

/// The arguments of one run.
#[derive(Debug, Clone)]
pub struct Args {
    /// The word to see definitions for.
    pub word: Option<String>,
    /// The API key to use in place of the one in the environment.
    pub use_key: Option<String>,
    /// Look up a random word.
    pub random: bool,
    /// The greatest number of definitions to show.
    pub max: usize,
    /// Leave the output uncoloured.
    pub no_colour: bool,
    /// Show how the word is spoken.
    pub phonetics: bool,
    /// Show an example of use with each definition.
    pub examples: bool,
    /// Show the word's synonyms.
    pub synonyms: bool,
    /// Show the word's antonyms.
    pub antonyms: bool,
    /// Show all there is to show about the word.
    pub verbose: bool,
    /// Print everything known of the word as JSON.
    pub json: bool,
    /// Look up the word of the day.
    pub wotd: bool,
    /// Show the word's syllables.
    pub syllables: bool,
    /// Show the source of each definition.
    pub sources: bool,
    /// Show definitions from this dictionary only.
    pub from: Option<SourceDict>,
    /// Leave out the part of speech of each definition.
    pub no_types: bool,
}

/// Where the word to look up comes from.
#[derive(Debug, Clone, PartialEq, Eq)]
pub enum WordSource {
    /// The user gave the word.
    Given(String),
    /// The service is asked for a random word.
    Random,
    /// The service is asked for its word of the day.
    WordOfTheDay,
}

impl Default for Args {
    /// No word, no switch set, and [`DEFAULT_MAX`] definitions at most.
    fn default() -> (out: Args)
        ensures
            out == (Args {
                word: None,
                use_key: None,
                random: false,
                max: DEFAULT_MAX,
                no_colour: false,
                phonetics: false,
                examples: false,
                synonyms: false,
                antonyms: false,
                verbose: false,
                json: false,
                wotd: false,
                syllables: false,
                sources: false,
                from: None,
                no_types: false,
            }),
    {
        Args {
            word: None,
            use_key: None,
            random: false,
            max: DEFAULT_MAX,
            no_colour: false,
            phonetics: false,
            examples: false,
            synonyms: false,
            antonyms: false,
            verbose: false,
            json: false,
            wotd: false,
            syllables: false,
            sources: false,
            from: None,
            no_types: false,
        }
    }
}

impl Args {
    /// What the arguments say on how the word is shown.
    pub open spec fn shown_with(self) -> Options {
        Options {
            max: self.max,
            examples: self.examples,
            phonetics: self.phonetics,
            syllables: self.syllables,
            synonyms: self.synonyms,
            antonyms: self.antonyms,
            no_types: self.no_types,
            colour: !self.no_colour,
            verbose: self.verbose,
        }
    }

    /// Where the arguments take the word from: the word given, before
    /// anything else; without one, a random word where that is asked for,
    /// else the word of the day where that is; and from nowhere otherwise.
    pub open spec fn word_from(self) -> Result<WordSource, ConfigError> {
        match self.word {
            Some(word) => Ok(WordSource::Given(word)),
            None => if self.random {
                Ok(WordSource::Random)
            } else if self.wotd {
                Ok(WordSource::WordOfTheDay)
            } else {
                Err(ConfigError::NoWord)
            },
        }
    }

    /// What the arguments say on how the word is shown.
    pub fn options(&self) -> (out: Options)
        ensures
            out == self.shown_with(),
    {
        Options {
            max: self.max,
            examples: self.examples,
            phonetics: self.phonetics,
            syllables: self.syllables,
            synonyms: self.synonyms,
            antonyms: self.antonyms,
            no_types: self.no_types,
            colour: !self.no_colour,
            verbose: self.verbose,
        }
    }

    /// Where to take the word from, or [`ConfigError::NoWord`] where the
    /// arguments neither give a word nor ask the service for one.
    pub fn word_source(&self) -> (out: Result<WordSource, ConfigError>)
        ensures
            out == self.word_from(),
    {
        match &self.word {
            Some(word) => Ok(WordSource::Given(word.clone())),
            None => {
                if self.random {
                    Ok(WordSource::Random)
                } else if self.wotd {
                    Ok(WordSource::WordOfTheDay)
                } else {
                    Err(ConfigError::NoWord)
                }
            },
        }
    }

    /// The API key to use: the one given on the command line, else the one
    /// from the environment, `env_key`; [`ConfigError::MissingKey`] where
    /// there is neither.
    pub fn api_key(&self, env_key: Option<String>) -> (out: Result<String, ConfigError>)
        ensures
            out == (match self.use_key {
                Some(key) => Ok::<String, ConfigError>(key),
                None => match env_key {
                    Some(key) => Ok(key),
                    None => Err(ConfigError::MissingKey),
                },
            }),
    {
        match &self.use_key {
            Some(key) => Ok(key.clone()),
            None => match env_key {
                Some(key) => Ok(key),
                None => Err(ConfigError::MissingKey),
            },
        }
    }
}

} // verus!
