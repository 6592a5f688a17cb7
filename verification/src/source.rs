//! The dictionaries a definition can come from.

use vstd::prelude::*;
use crate::chars::{ascii_lower, eq_ignore_ascii_case, folded};

verus! {

/// The dictionary a definition was taken from.
#[derive(Debug, Clone, Copy, PartialEq, Eq, Structural)]
pub enum SourceDict {
    Ahd5,
    Century,
    Gcide,
    Wiktionary,
    Webster,
    Wordnet,
}

impl SourceDict {
    /// The name under which the dictionary is shown.
    pub open spec fn label(self) -> Seq<char> {
        match self {
            SourceDict::Ahd5 => "AHD-5"@,
            SourceDict::Century => "Century"@,
            SourceDict::Gcide => "GCIDE"@,
            SourceDict::Wiktionary => "Wiktionary"@,
            SourceDict::Webster => "Webster"@,
            SourceDict::Wordnet => "Wordnet"@,
        }
    }

    /// Whether `text` names this dictionary, whatever the case of its letters.
    pub open spec fn named_by(self, text: Seq<char>) -> bool {
        folded(text) == folded(self.label())
    }

    /// The dictionary that `text` names, if it names one.
    pub open spec fn parsed(text: Seq<char>) -> Option<SourceDict> {
        if SourceDict::Ahd5.named_by(text) {
            Some(SourceDict::Ahd5)
        } else if SourceDict::Century.named_by(text) {
            Some(SourceDict::Century)
        } else if SourceDict::Gcide.named_by(text) {
            Some(SourceDict::Gcide)
        } else if SourceDict::Wiktionary.named_by(text) {
            Some(SourceDict::Wiktionary)
        } else if SourceDict::Webster.named_by(text) {
            Some(SourceDict::Webster)
        } else if SourceDict::Wordnet.named_by(text) {
            Some(SourceDict::Wordnet)
        } else {
            None
        }
    }

    /// The name under which the dictionary is shown.
    pub fn name(&self) -> (out: &'static str)
        ensures
            out@ == self.label(),
    {
        match self {
            SourceDict::Ahd5 => "AHD-5",
            SourceDict::Century => "Century",
            SourceDict::Gcide => "GCIDE",
            SourceDict::Wiktionary => "Wiktionary",
            SourceDict::Webster => "Webster",
            SourceDict::Wordnet => "Wordnet",
        }
    }

    /// The name under which the dictionary is shown, as an owned string.
    pub fn to_string(&self) -> (out: String)
        ensures
            out@ == self.label(),
    {
        self.name().to_owned()
    }

    /// Reads a dictionary's name, in any mix of upper and lower case.
    pub fn parse(text: &str) -> (out: Option<SourceDict>)
        ensures
            out == SourceDict::parsed(text@),
    {
        if eq_ignore_ascii_case(text, SourceDict::Ahd5.name()) {
            Some(SourceDict::Ahd5)
        } else if eq_ignore_ascii_case(text, SourceDict::Century.name()) {
            Some(SourceDict::Century)
        } else if eq_ignore_ascii_case(text, SourceDict::Gcide.name()) {
            Some(SourceDict::Gcide)
        } else if eq_ignore_ascii_case(text, SourceDict::Wiktionary.name()) {
            Some(SourceDict::Wiktionary)
        } else if eq_ignore_ascii_case(text, SourceDict::Webster.name()) {
            Some(SourceDict::Webster)
        } else if eq_ignore_ascii_case(text, SourceDict::Wordnet.name()) {
            Some(SourceDict::Wordnet)
        } else {
            None
        }
    }
}

/// No two dictionaries share a name, even with case set aside.
pub proof fn lemma_names_distinct(a: SourceDict, b: SourceDict)
    requires
        a != b,
    ensures
        folded(a.label()) != folded(b.label()),
{
    reveal_strlit("AHD-5");
    reveal_strlit("Century");
    reveal_strlit("GCIDE");
    reveal_strlit("Wiktionary");
    reveal_strlit("Webster");
    reveal_strlit("Wordnet");
    let x = folded(a.label());
    let y = folded(b.label());
    if x.len() == y.len() {
        assert(x[0] == ascii_lower(a.label()[0]));
        assert(y[0] == ascii_lower(b.label()[0]));
        assert(x[1] == ascii_lower(a.label()[1]));
        assert(y[1] == ascii_lower(b.label()[1]));
        assert(x[0] != y[0] || x[1] != y[1]);
    }
}

/// A dictionary's own name reads back as that dictionary.
pub proof fn lemma_label_parses_back(d: SourceDict)
    ensures
        SourceDict::parsed(d.label()) == Some(d),
{
    lemma_names_distinct(SourceDict::Ahd5, SourceDict::Century);
    lemma_names_distinct(SourceDict::Ahd5, SourceDict::Gcide);
    lemma_names_distinct(SourceDict::Ahd5, SourceDict::Wiktionary);
    lemma_names_distinct(SourceDict::Ahd5, SourceDict::Webster);
    lemma_names_distinct(SourceDict::Ahd5, SourceDict::Wordnet);
    lemma_names_distinct(SourceDict::Century, SourceDict::Gcide);
    lemma_names_distinct(SourceDict::Century, SourceDict::Wiktionary);
    lemma_names_distinct(SourceDict::Century, SourceDict::Webster);
    lemma_names_distinct(SourceDict::Century, SourceDict::Wordnet);
    lemma_names_distinct(SourceDict::Gcide, SourceDict::Wiktionary);
    lemma_names_distinct(SourceDict::Gcide, SourceDict::Webster);
    lemma_names_distinct(SourceDict::Gcide, SourceDict::Wordnet);
    lemma_names_distinct(SourceDict::Wiktionary, SourceDict::Webster);
    lemma_names_distinct(SourceDict::Wiktionary, SourceDict::Wordnet);
    lemma_names_distinct(SourceDict::Webster, SourceDict::Wordnet);
}

/// Reading a name pays no attention to the case of its letters.
pub proof fn lemma_parse_ignores_case(a: Seq<char>, b: Seq<char>)
    requires
        folded(a) == folded(b),
    ensures
        SourceDict::parsed(a) == SourceDict::parsed(b),
{
}

} // verus!
