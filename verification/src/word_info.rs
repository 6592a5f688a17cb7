//! All that is known of one word.

use vstd::prelude::*;
use crate::chars::{strip_quotes, unquoted};
use crate::definition::{Definition, DefinitionView};
use crate::error::ApiError;
use crate::tags::{remove_tags, stripped, tag_free};

verus! {

/// A part of a word as it is spoken.
#[derive(Debug, Clone)]
pub struct Syllable {
    pub text: String,
    /// How the syllable is spoken (stressed, for one), where the service says so.
    pub ty: Option<String>,
}

/// What a [`Syllable`] holds.
pub struct SyllableView {
    pub text: Seq<char>,
    pub ty: Option<Seq<char>>,
}

impl SyllableView {
    /// The syllable as it is shown: its text, a space, and its kind in
    /// parentheses where it has one.
    pub open spec fn shown(self) -> Seq<char> {
        match self.ty {
            Some(t) => self.text + " "@ + "("@ + t + ")"@,
            None => self.text + " "@,
        }
    }

    /// The same syllable with the tags taken out of its text.
    pub open spec fn cleaned(self) -> SyllableView {
        SyllableView { text: stripped(self.text), ty: self.ty }
    }
}

impl DeepView for Syllable {
    type V = SyllableView;

    open spec fn deep_view(&self) -> SyllableView {
        SyllableView { text: self.text@, ty: self.ty.deep_view() }
    }
}

impl Syllable {
    /// The syllable as it is shown.
    pub fn to_string(&self) -> (out: String)
        ensures
            out@ == self.deep_view().shown(),
    {
        let mut out = self.text.clone();
        out.append(" ");
        match &self.ty {
            Some(t) => {
                out.append("(");
                out.append(t.as_str());
                out.append(")");
            },
            None => {},
        }
        out
    }

    /// The same syllable with the tags taken out of its text.
    pub fn cleaned(&self) -> (out: Syllable)
        ensures
            out.deep_view() == self.deep_view().cleaned(),
            tag_free(out.text@),
    {
        Syllable {
            text: remove_tags(self.text.as_str()),
            ty: match &self.ty {
                Some(t) => Some(t.clone()),
                None => None,
            },
        }
    }
}

/// All that the service knows of one word.
#[derive(Debug)]
pub struct WordInfo {
    word: String,
    definitions: Vec<Definition>,
    pronunciations: Vec<String>,
    synonyms: Vec<String>,
    antonyms: Vec<String>,
    syllables: Vec<Syllable>,
}

/// What a [`WordInfo`] holds.
pub struct WordInfoView {
    pub word: Seq<char>,
    /// The definitions, in the order the service gave them.
    pub definitions: Seq<DefinitionView>,
    pub pronunciations: Seq<Seq<char>>,
    pub synonyms: Seq<Seq<char>>,
    pub antonyms: Seq<Seq<char>>,
    pub syllables: Seq<SyllableView>,
}

impl WordInfoView {
    /// Whether no text that is shown to a user holds a tag: no definition's
    /// text, no example, no syllable.
    pub open spec fn is_clean(self) -> bool {
        &&& forall|i: int|
            0 <= i < self.definitions.len() ==> (#[trigger] self.definitions[i]).is_clean()
        &&& forall|i: int|
            0 <= i < self.syllables.len() ==> tag_free((#[trigger] self.syllables[i]).text)
    }
}

/// The texts of a reply that may be missing: none where it is.
pub open spec fn texts_or_none(reply: Result<Vec<String>, ApiError>) -> Seq<Seq<char>> {
    match reply {
        Ok(texts) => texts.deep_view(),
        Err(_) => Seq::empty(),
    }
}

/// The syllables of a reply that may be missing: none where it is.
pub open spec fn syllables_or_none(reply: Result<Vec<Syllable>, ApiError>) -> Seq<SyllableView> {
    match reply {
        Ok(syllables) => syllables.deep_view(),
        Err(_) => Seq::empty(),
    }
}

/// What is made of the replies to the five requests for `word`, given that
/// the one for definitions brought `definitions`.
pub open spec fn assembled(
    word: Seq<char>,
    definitions: Seq<DefinitionView>,
    pronunciations: Result<Vec<String>, ApiError>,
    synonyms: Result<Vec<String>, ApiError>,
    antonyms: Result<Vec<String>, ApiError>,
    syllables: Result<Vec<Syllable>, ApiError>,
) -> WordInfoView {
    WordInfoView {
        word,
        definitions: definitions.map_values(|d: DefinitionView| d.cleaned()),
        pronunciations: texts_or_none(pronunciations),
        synonyms: texts_or_none(synonyms).map_values(|w: Seq<char>| unquoted(w)),
        antonyms: texts_or_none(antonyms).map_values(|w: Seq<char>| unquoted(w)),
        syllables: syllables_or_none(syllables).map_values(|s: SyllableView| s.cleaned()),
    }
}

impl View for WordInfo {
    type V = WordInfoView;

    closed spec fn view(&self) -> WordInfoView {
        WordInfoView {
            word: self.word@,
            definitions: self.definitions.deep_view(),
            pronunciations: self.pronunciations.deep_view(),
            synonyms: self.synonyms.deep_view(),
            antonyms: self.antonyms.deep_view(),
            syllables: self.syllables.deep_view(),
        }
    }
}

fn clean_definitions(definitions: &Vec<Definition>) -> (out: Vec<Definition>)
    ensures
        out.deep_view() == definitions.deep_view().map_values(|d: DefinitionView| d.cleaned()),
        forall|i: int| 0 <= i < out.len() ==> (#[trigger] out.deep_view()[i]).is_clean(),
{
    let mut out: Vec<Definition> = Vec::new();
    let mut i: usize = 0;
    while i < definitions.len()
        invariant
            i <= definitions.len(),
            out.len() == i,
            forall|k: int| 0 <= k < i ==> out@[k]@ == definitions@[k]@.cleaned(),
            forall|k: int| 0 <= k < i ==> out@[k]@.is_clean(),
        decreases definitions.len() - i,
    {
        out.push(definitions[i].cleaned());
        i += 1;
    }
    assert(out.deep_view() =~= definitions.deep_view().map_values(
        |d: DefinitionView| d.cleaned(),
    ));
    out
}

fn clean_syllables(syllables: &Vec<Syllable>) -> (out: Vec<Syllable>)
    ensures
        out.deep_view() == syllables.deep_view().map_values(|s: SyllableView| s.cleaned()),
        forall|i: int| 0 <= i < out.len() ==> tag_free((#[trigger] out.deep_view()[i]).text),
{
    let mut out: Vec<Syllable> = Vec::new();
    let mut i: usize = 0;
    while i < syllables.len()
        invariant
            i <= syllables.len(),
            out.len() == i,
            forall|k: int|
                0 <= k < i ==> out@[k].deep_view() == syllables@[k].deep_view().cleaned(),
            forall|k: int| 0 <= k < i ==> tag_free(out@[k].text@),
        decreases syllables.len() - i,
    {
        out.push(syllables[i].cleaned());
        i += 1;
    }
    assert(out.deep_view() =~= syllables.deep_view().map_values(|s: SyllableView| s.cleaned()));
    out
}

fn unquote_all(words: &Vec<String>) -> (out: Vec<String>)
    ensures
        out.deep_view() == words.deep_view().map_values(|w: Seq<char>| unquoted(w)),
{
    let mut out: Vec<String> = Vec::new();
    let mut i: usize = 0;
    while i < words.len()
        invariant
            i <= words.len(),
            out.len() == i,
            forall|k: int| 0 <= k < i ==> out@[k]@ == unquoted(words@[k]@),
        decreases words.len() - i,
    {
        out.push(strip_quotes(words[i].as_str()));
        i += 1;
    }
    assert(out.deep_view() =~= words.deep_view().map_values(|w: Seq<char>| unquoted(w)));
    out
}

impl WordInfo {
    #[verifier::type_invariant]
    spec fn clean(self) -> bool {
        self@.is_clean()
    }

    /// Puts together what is known of `word` from the replies to the five
    /// requests made for it.
    ///
    /// The definitions are needed: where their request failed, its error is
    /// handed on. Every other request may have failed, and then counts as a
    /// reply without items. Tags are taken out of the text and the examples
    /// of each definition and out of each syllable, and quotation marks out
    /// of each synonym and antonym. Definitions without text stay in place.
    pub fn fetch(
        word: &str,
        definitions: Result<Vec<Definition>, ApiError>,
        pronunciations: Result<Vec<String>, ApiError>,
        synonyms: Result<Vec<String>, ApiError>,
        antonyms: Result<Vec<String>, ApiError>,
        syllables: Result<Vec<Syllable>, ApiError>,
    ) -> (out: Result<WordInfo, ApiError>)
        ensures
            match definitions {
                Ok(found) => out matches Ok(info) && info@ == assembled(
                    word@,
                    found.deep_view(),
                    pronunciations,
                    synonyms,
                    antonyms,
                    syllables,
                ),
                Err(e) => out == Err::<WordInfo, ApiError>(e),
            },
            definitions is Err ==> out is Err,
            definitions is Ok && pronunciations is Err ==> (out matches Ok(info)
                && info@.pronunciations.len() == 0 && info@.definitions.len()
                == definitions->Ok_0.len()),
            out matches Ok(info) ==> info@.is_clean(),
    {
        let ghost wanted = assembled(
            word@,
            definitions->Ok_0.deep_view(),
            pronunciations,
            synonyms,
            antonyms,
            syllables,
        );
        let found = match definitions {
            Ok(found) => found,
            Err(e) => {
                return Err(e);
            },
        };
        let definitions = clean_definitions(&found);
        let pronunciations = match pronunciations {
            Ok(texts) => texts,
            Err(_) => Vec::new(),
        };
        let synonyms = match synonyms {
            Ok(words) => unquote_all(&words),
            Err(_) => Vec::new(),
        };
        let antonyms = match antonyms {
            Ok(words) => unquote_all(&words),
            Err(_) => Vec::new(),
        };
        let syllables = match syllables {
            Ok(parts) => clean_syllables(&parts),
            Err(_) => Vec::new(),
        };
        proof {
            assert(pronunciations.deep_view() =~= wanted.pronunciations);
            assert(synonyms.deep_view() =~= wanted.synonyms);
            assert(antonyms.deep_view() =~= wanted.antonyms);
            assert(syllables.deep_view() =~= wanted.syllables);
        }
        let info = WordInfo {
            word: word.to_owned(),
            definitions,
            pronunciations,
            synonyms,
            antonyms,
            syllables,
        };
        Ok(info)
    }

    /// The word that this is about.
    pub fn word(&self) -> (out: &str)
        ensures
            out@ == self@.word,
    {
        self.word.as_str()
    }

    /// The phonetic transcriptions of the word.
    pub fn pronunciations(&self) -> (out: &[String])
        ensures
            out.deep_view() == self@.pronunciations,
    {
        self.pronunciations.as_slice()
    }

    /// The definitions of the word, in the order the service gave them.
    pub fn definitions(&self) -> (out: &[Definition])
        ensures
            out.deep_view() == self@.definitions,
            self@.is_clean(),
    {
        proof {
            use_type_invariant(self);
        }
        self.definitions.as_slice()
    }

    /// The words that mean the same.
    pub fn synonyms(&self) -> (out: &[String])
        ensures
            out.deep_view() == self@.synonyms,
    {
        self.synonyms.as_slice()
    }

    /// The words that mean the opposite.
    pub fn antonyms(&self) -> (out: &[String])
        ensures
            out.deep_view() == self@.antonyms,
    {
        self.antonyms.as_slice()
    }

    /// The word, syllable by syllable.
    pub fn syllables(&self) -> (out: &[Syllable])
        ensures
            out.deep_view() == self@.syllables,
            self@.is_clean(),
    {
        proof {
            use_type_invariant(self);
        }
        self.syllables.as_slice()
    }
}

} // verus!
