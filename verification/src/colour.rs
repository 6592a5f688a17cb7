//! Terminal colours for the parts of the output.

use vstd::prelude::*;
use owo_colors::OwoColorize;

verus! {

/// `text` between the escape sequence `on` and the escape sequence `off`.
pub open spec fn between(on: Seq<char>, text: Seq<char>, off: Seq<char>) -> Seq<char> {
    on + text + off
}

/// `text` in a foreground colour: between the sequence that selects the
/// colour with the code `code` and the one that selects the default colour.
pub open spec fn coloured(code: Seq<char>, text: Seq<char>) -> Seq<char> {
    between("\x1b["@ + code + "m"@, text, "\x1b[39m"@)
}

/// `text` with an effect: between the sequence that switches on the effect
/// with the code `code` and the one that resets all attributes.
pub open spec fn styled(code: Seq<char>, text: Seq<char>) -> Seq<char> {
    between("\x1b["@ + code + "m"@, text, "\x1b[0m"@)
}

/// What a piece of the output is, which decides how it is coloured.
#[derive(Debug, Clone, Copy, PartialEq, Eq, Structural)]
pub enum Role {
    /// The number in front of a definition.
    Index,
    PartOfSpeech,
    Example,
    /// A note that stands where something is missing.
    Missing,
    /// A transcription, a synonym or an antonym.
    Related,
    Syllable,
    /// The word itself, where the service chose it.
    Word,
    /// The word that opens the report of a failure.
    Failure,
}

/// `text` as it is written for `role`: plain without colour; with colour,
/// the number of a definition bold in cyan, a part of speech and a chosen
/// word in magenta, an example in green, a note of something missing italic
/// in red, a related word in yellow, a syllable in bright yellow, the
/// opening of a failure's report bold in red.
pub open spec fn painted(role: Role, text: Seq<char>, colour: bool) -> Seq<char> {
    if !colour {
        text
    } else {
        match role {
            Role::Index => styled("1"@, coloured("36"@, text)),
            Role::PartOfSpeech => coloured("35"@, text),
            Role::Example => coloured("32"@, text),
            Role::Missing => styled("3"@, coloured("31"@, text)),
            Role::Related => coloured("33"@, text),
            Role::Syllable => coloured("93"@, text),
            Role::Word => coloured("35"@, text),
            Role::Failure => styled("1"@, coloured("31"@, text)),
        }
    }
}

/// `OwoColorize::cyan`, written out: the text after the sequence for a cyan
/// foreground (code 36) and before the one for the default foreground.
#[verifier::external_body]
fn cyan(text: &str) -> (out: String)
    ensures
        out@ == coloured("36"@, text@),
{
    format!("{}", text.cyan())
}

/// `OwoColorize::magenta`, written out: the text after the sequence for a
/// magenta foreground (code 35) and before the one for the default foreground.
#[verifier::external_body]
fn magenta(text: &str) -> (out: String)
    ensures
        out@ == coloured("35"@, text@),
{
    format!("{}", text.magenta())
}

/// `OwoColorize::green`, written out: the text after the sequence for a
/// green foreground (code 32) and before the one for the default foreground.
#[verifier::external_body]
fn green(text: &str) -> (out: String)
    ensures
        out@ == coloured("32"@, text@),
{
    format!("{}", text.green())
}

/// `OwoColorize::red`, written out: the text after the sequence for a red
/// foreground (code 31) and before the one for the default foreground.
#[verifier::external_body]
fn red(text: &str) -> (out: String)
    ensures
        out@ == coloured("31"@, text@),
{
    format!("{}", text.red())
}

/// `OwoColorize::yellow`, written out: the text after the sequence for a
/// yellow foreground (code 33) and before the one for the default foreground.
#[verifier::external_body]
fn yellow(text: &str) -> (out: String)
    ensures
        out@ == coloured("33"@, text@),
{
    format!("{}", text.yellow())
}

/// `OwoColorize::bright_yellow`, written out: the text after the sequence
/// for a bright yellow foreground (code 93) and before the one for the
/// default foreground.
#[verifier::external_body]
fn bright_yellow(text: &str) -> (out: String)
    ensures
        out@ == coloured("93"@, text@),
{
    format!("{}", text.bright_yellow())
}

/// `OwoColorize::bold`, written out: the text after the sequence that
/// switches bold on (code 1) and before the one that resets all attributes.
#[verifier::external_body]
fn bold(text: &str) -> (out: String)
    ensures
        out@ == styled("1"@, text@),
{
    format!("{}", text.bold())
}

/// `OwoColorize::italic`, written out: the text after the sequence that
/// switches italic on (code 3) and before the one that resets all attributes.
#[verifier::external_body]
fn italic(text: &str) -> (out: String)
    ensures
        out@ == styled("3"@, text@),
{
    format!("{}", text.italic())
}

/// `text` as it is written for `role`, with or without colour.
pub fn paint(role: Role, text: &str, colour: bool) -> (out: String)
    ensures
        out@ == painted(role, text@, colour),
{
    if !colour {
        text.to_owned()
    } else {
        match role {
            Role::Index => {
                let inner = cyan(text);
                bold(inner.as_str())
            },
            Role::PartOfSpeech => magenta(text),
            Role::Example => green(text),
            Role::Missing => {
                let inner = red(text);
                italic(inner.as_str())
            },
            Role::Related => yellow(text),
            Role::Syllable => bright_yellow(text),
            Role::Word => magenta(text),
            Role::Failure => {
                let inner = red(text);
                bold(inner.as_str())
            },
        }
    }
}

} // verus!
