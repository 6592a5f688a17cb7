//! Requests to the dictionary service and what to make of its replies.
//!
//! Nothing here talks to the network. A caller gets the address to ask from
//! one of the `*_url` functions, makes the request, hands what came back to
//! [`get_data`], decodes the body, and hands the outcome to [`decoded`] and
//! then to the function for that kind of reply.

use vstd::prelude::*;
use crate::chars::{strip_quotes, unquoted};
use crate::error::ApiError;

verus! {

/// Where the service lives.
pub const BASE_URL: &'static str = "https://api.wordnik.com/v4";

/// The ways in which one word can relate to another.
#[derive(Debug, Clone, Copy, PartialEq, Eq, Structural)]
pub enum RelationshipType {
    Synonym,
    Antonym,
}

impl RelationshipType {
    /// The name the service has for this relationship.
    pub open spec fn label(self) -> Seq<char> {
        match self {
            RelationshipType::Synonym => "synonym"@,
            RelationshipType::Antonym => "antonym"@,
        }
    }

    /// The name the service has for this relationship.
    pub fn to_string(&self) -> (out: String)
        ensures
            out@ == self.label(),
    {
        match self {
            RelationshipType::Synonym => "synonym".to_owned(),
            RelationshipType::Antonym => "antonym".to_owned(),
        }
    }
}

/// What came back from one request that reached the service.
#[derive(Debug, Clone)]
pub struct Reply {
    pub status: u16,
    pub body: String,
}

/// A phonetic transcription as the service gives it.
#[derive(Debug, Clone)]
pub struct Pronunciation {
    pub raw: String,
    /// The notation that `raw` is written in.
    pub raw_type: String,
}

/// What a [`Pronunciation`] holds.
pub struct PronunciationView {
    pub raw: Seq<char>,
    pub raw_type: Seq<char>,
}

impl DeepView for Pronunciation {
    type V = PronunciationView;

    open spec fn deep_view(&self) -> PronunciationView {
        PronunciationView { raw: self.raw@, raw_type: self.raw_type@ }
    }
}

/// One group of words that relate to a word in the same way.
#[derive(Debug, Clone)]
pub struct RelatedWords {
    pub words: Vec<String>,
}

impl DeepView for RelatedWords {
    type V = Seq<Seq<char>>;

    open spec fn deep_view(&self) -> Seq<Seq<char>> {
        self.words.deep_view()
    }
}

/// The reply to a request for a single word.
#[derive(Debug, Clone)]
pub struct WordRecord {
    pub word: String,
}

/// The address of the resource `what` of `word`, before the query.
pub open spec fn word_resource(word: Seq<char>, what: Seq<char>) -> Seq<char> {
    BASE_URL@ + "/word.json/"@ + word + "/"@ + what
}

/// The address that gives the definitions of `word`.
pub open spec fn definitions_address(word: Seq<char>, key: Seq<char>) -> Seq<char> {
    word_resource(word, "definitions"@) + "?api_key="@ + key
}

/// The address that gives the pronunciations of `word`.
pub open spec fn phonetics_address(word: Seq<char>, key: Seq<char>) -> Seq<char> {
    word_resource(word, "pronunciations"@) + "?api_key="@ + key
}

/// The address that gives the syllables of `word`.
pub open spec fn syllables_address(word: Seq<char>, key: Seq<char>) -> Seq<char> {
    word_resource(word, "hyphenation"@) + "?api_key="@ + key
}

/// The address that gives the words related to `word` as `rel_type` says.
pub open spec fn related_address(
    word: Seq<char>,
    key: Seq<char>,
    rel_type: RelationshipType,
) -> Seq<char> {
    word_resource(word, "relatedWords"@) + "?&relationshipTypes="@ + rel_type.label()
        + "&api_key="@ + key
}

/// The address that gives a random word.
pub open spec fn random_word_address(key: Seq<char>) -> Seq<char> {
    BASE_URL@ + "/words.json/randomWord?api_key="@ + key
}

/// The address that gives the word of the day.
pub open spec fn wotd_address(key: Seq<char>) -> Seq<char> {
    BASE_URL@ + "/words.json/wordOfTheDay?api_key="@ + key
}

fn word_url(word: &str, what: &str) -> (out: String)
    ensures
        out@ == word_resource(word@, what@),
{
    let mut out = BASE_URL.to_owned();
    out.append("/word.json/");
    out.append(word);
    out.append("/");
    out.append(what);
    out
}

/// The address to ask for the definitions of `word`.
pub fn definitions_url(word: &str, key: &str) -> (out: String)
    ensures
        out@ == definitions_address(word@, key@),
{
    let mut out = word_url(word, "definitions");
    out.append("?api_key=");
    out.append(key);
    out
}

/// The address to ask for the pronunciations of `word`.
pub fn phonetics_url(word: &str, key: &str) -> (out: String)
    ensures
        out@ == phonetics_address(word@, key@),
{
    let mut out = word_url(word, "pronunciations");
    out.append("?api_key=");
    out.append(key);
    out
}

/// The address to ask for the syllables of `word`.
pub fn syllables_url(word: &str, key: &str) -> (out: String)
    ensures
        out@ == syllables_address(word@, key@),
{
    let mut out = word_url(word, "hyphenation");
    out.append("?api_key=");
    out.append(key);
    out
}

/// The address to ask for the words that relate to `word` as `rel_type` says.
pub fn related_url(word: &str, key: &str, rel_type: RelationshipType) -> (out: String)
    ensures
        out@ == related_address(word@, key@, rel_type),
{
    let mut out = word_url(word, "relatedWords");
    out.append("?&relationshipTypes=");
    let name = rel_type.to_string();
    out.append(name.as_str());
    out.append("&api_key=");
    out.append(key);
    out
}

/// The address to ask for a random word.
pub fn random_word_url(key: &str) -> (out: String)
    ensures
        out@ == random_word_address(key@),
{
    let mut out = BASE_URL.to_owned();
    out.append("/words.json/randomWord?api_key=");
    out.append(key);
    out
}

/// The address to ask for the word of the day.
pub fn wotd_url(key: &str) -> (out: String)
    ensures
        out@ == wotd_address(key@),
{
    let mut out = BASE_URL.to_owned();
    out.append("/words.json/wordOfTheDay?api_key=");
    out.append(key);
    out
}

/// Whether a status says that the request was served.
pub open spec fn is_success(status: u16) -> bool {
    200 <= status < 300
}

/// The body of what a request brought, or the reason why there is none to
/// read: the request never got an answer (`outcome` then holds the reason),
/// or the answer's status is not a success. One status that is not a
/// success is as good as another: a refused key is not told apart.
pub fn get_data(outcome: Result<Reply, String>) -> (out: Result<String, ApiError>)
    ensures
        out == (match outcome {
            Err(reason) => Err::<String, ApiError>(ApiError::Transport(reason)),
            Ok(reply) => if is_success(reply.status) {
                Ok(reply.body)
            } else {
                Err(ApiError::Upstream(reply.status))
            },
        }),
{
    match outcome {
        Err(reason) => Err(ApiError::Transport(reason)),
        Ok(reply) => {
            if 200 <= reply.status && reply.status < 300 {
                Ok(reply.body)
            } else {
                Err(ApiError::Upstream(reply.status))
            }
        },
    }
}

/// What the body of a reply was decoded to, or the reason why it could not
/// be decoded, as a failure of its own kind.
pub fn decoded<T>(outcome: Result<T, String>) -> (out: Result<T, ApiError>)
    ensures
        out == (match outcome {
            Ok(value) => Ok::<T, ApiError>(value),
            Err(reason) => Err(ApiError::Parse(reason)),
        }),
{
    match outcome {
        Ok(value) => Ok(value),
        Err(reason) => Err(ApiError::Parse(reason)),
    }
}

/// The transcriptions among `records` that are written in IPA, in order.
pub open spec fn ipa_transcriptions(records: Seq<PronunciationView>) -> Seq<Seq<char>> {
    records.filter(|p: PronunciationView| p.raw_type == "IPA"@).map_values(
        |p: PronunciationView| p.raw,
    )
}

/// The IPA transcriptions among the pronunciations that the service gave,
/// or [`ApiError::NoPhonetics`] where it gave none in IPA.
pub fn get_phonetics(records: &Vec<Pronunciation>) -> (out: Result<Vec<String>, ApiError>)
    ensures
        match out {
            Ok(found) => found.deep_view() == ipa_transcriptions(records.deep_view())
                && found.len() > 0,
            Err(e) => e == ApiError::NoPhonetics && ipa_transcriptions(
                records.deep_view(),
            ).len() == 0,
        },
{
    let ipa = "IPA".to_owned();
    let mut found: Vec<String> = Vec::new();
    let mut i: usize = 0;
    while i < records.len()
        invariant
            i <= records.len(),
            ipa@ == "IPA"@,
            found.deep_view() == ipa_transcriptions(records.deep_view().take(i as int)),
        decreases records.len() - i,
    {
        let ghost before = found.deep_view();
        let ghost seen = records.deep_view().take(i as int);
        let ghost next = records.deep_view()[i as int];
        proof {
            let is_ipa = |p: PronunciationView| p.raw_type == "IPA"@;
            seen.lemma_filter_push(next, is_ipa);
            assert(seen.push(next) =~= records.deep_view().take(i + 1));
            assert(seen.filter(is_ipa).push(next).map_values(|p: PronunciationView| p.raw)
                =~= seen.filter(is_ipa).map_values(|p: PronunciationView| p.raw).push(next.raw));
        }
        if records[i].raw_type == ipa {
            found.push(records[i].raw.clone());
            assert(found.deep_view() =~= before.push(next.raw));
        }
        i += 1;
    }
    proof {
        assert(records.deep_view().take(records.len() as int) =~= records.deep_view());
    }
    if found.len() == 0 {
        Err(ApiError::NoPhonetics)
    } else {
        Ok(found)
    }
}

/// The words of the first group, or none where there is no group.
pub open spec fn first_group(groups: Seq<Seq<Seq<char>>>) -> Seq<Seq<char>> {
    if groups.len() > 0 {
        groups[0]
    } else {
        Seq::empty()
    }
}

/// The words that the service relates to a word: those of the first group
/// of its reply. A reply without groups relates no words; that is no error.
pub fn get_related(groups: &Vec<RelatedWords>) -> (out: Vec<String>)
    ensures
        out.deep_view() == first_group(groups.deep_view()),
{
    let mut out: Vec<String> = Vec::new();
    if groups.len() > 0 {
        let words = &groups[0].words;
        let mut i: usize = 0;
        while i < words.len()
            invariant
                i <= words.len(),
                out.len() == i,
                forall|k: int| 0 <= k < i ==> out@[k]@ == words@[k]@,
            decreases words.len() - i,
        {
            out.push(words[i].clone());
            i += 1;
        }
        assert(out.deep_view() =~= words.deep_view());
    } else {
        assert(out.deep_view() =~= Seq::<Seq<char>>::empty());
    }
    out
}

/// The word that the service picked at random, without quotation marks.
pub fn get_random_word(record: &WordRecord) -> (out: String)
    ensures
        out@ == unquoted(record.word@),
{
    strip_quotes(record.word.as_str())
}

/// The word that the service features today, without quotation marks.
pub fn get_wotd(record: &WordRecord) -> (out: String)
    ensures
        out@ == unquoted(record.word@),
{
    strip_quotes(record.word.as_str())
}

} // verus!
