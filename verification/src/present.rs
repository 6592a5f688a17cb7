//! What is known of a word, laid out in lines for a terminal.

use vstd::prelude::*;
use crate::chars::{decimal, decimal_string, join, joined};
use crate::colour::{paint, painted, Role};
use crate::definition::{Definition, DefinitionView};
use crate::word_info::{Syllable, SyllableView, WordInfo, WordInfoView};

verus! {

/// What to show of a word, and how.
#[derive(Debug, Clone, Copy, PartialEq, Eq, Structural)]
pub struct Options {
    /// How many definitions are shown at most.
    pub max: usize,
    /// Whether each definition is followed by its first example.
    pub examples: bool,
    pub phonetics: bool,
    pub syllables: bool,
    pub synonyms: bool,
    pub antonyms: bool,
    /// Whether the part of speech is left out.
    pub no_types: bool,
    /// Whether the output is coloured.
    pub colour: bool,
    /// Whether examples, phonetics, synonyms and antonyms are all shown,
    /// whatever their own switches say.
    pub verbose: bool,
}

impl Options {
    /// The same options with `verbose` written out in the four switches
    /// that it stands for.
    pub open spec fn resolved(self) -> Options {
        Options {
            max: self.max,
            examples: self.examples || self.verbose,
            phonetics: self.phonetics || self.verbose,
            syllables: self.syllables,
            synonyms: self.synonyms || self.verbose,
            antonyms: self.antonyms || self.verbose,
            no_types: self.no_types,
            colour: self.colour,
            verbose: self.verbose,
        }
    }

    /// The same options with `verbose` written out in the four switches
    /// that it stands for.
    pub fn resolve(&self) -> (out: Options)
        ensures
            out == self.resolved(),
    {
        Options {
            max: self.max,
            examples: self.examples || self.verbose,
            phonetics: self.phonetics || self.verbose,
            syllables: self.syllables,
            synonyms: self.synonyms || self.verbose,
            antonyms: self.antonyms || self.verbose,
            no_types: self.no_types,
            colour: self.colour,
            verbose: self.verbose,
        }
    }
}

/// Whether a definition has a text, and so is shown at all.
pub open spec fn has_text(d: DefinitionView) -> bool {
    d.text is Some
}

/// The definitions that are shown: the first `max` of those with a text.
pub open spec fn shown(definitions: Seq<DefinitionView>, max: nat) -> Seq<DefinitionView> {
    let with_text = definitions.filter(|d: DefinitionView| has_text(d));
    if max < with_text.len() {
        with_text.take(max as int)
    } else {
        with_text
    }
}

/// The line that states a definition, which is the `number`th one shown.
pub open spec fn headline(number: nat, d: DefinitionView, options: Options) -> Seq<char> {
    let index = painted(Role::Index, decimal(number) + "."@, options.colour);
    if options.no_types {
        index + " "@ + d.text->Some_0
    } else {
        index + " "@ + painted(Role::PartOfSpeech, d.part_of_speech, options.colour) + " - "@
            + d.text->Some_0
    }
}

/// The line that gives a definition's first example, or says that it has none.
pub open spec fn example_line(d: DefinitionView, options: Options) -> Seq<char> {
    match d.top_example() {
        Some(example) => painted(Role::Example, "e.g. "@ + example, options.colour),
        None => painted(Role::Missing, "[No example]"@, options.colour),
    }
}

/// The lines for one definition, the `number`th one shown.
pub open spec fn entry(number: nat, d: DefinitionView, options: Options) -> Seq<Seq<char>> {
    if options.examples {
        seq![headline(number, d, options), example_line(d, options)]
    } else {
        seq![headline(number, d, options)]
    }
}

/// The lines for `definitions`, each of them shown and numbered by its
/// place in the sequence, from 1.
pub open spec fn entries(definitions: Seq<DefinitionView>, options: Options) -> Seq<Seq<char>>
    decreases definitions.len(),
{
    if definitions.len() == 0 {
        Seq::empty()
    } else {
        entries(definitions.drop_last(), options) + entry(
            definitions.len(),
            definitions.last(),
            options,
        )
    }
}

/// `items`, each written for `role`, with `sep` between neighbours.
pub open spec fn listed(items: Seq<Seq<char>>, role: Role, sep: Seq<char>, colour: bool) -> Seq<
    char,
> {
    joined(items.map_values(|item: Seq<char>| painted(role, item, colour)), sep)
}

/// The lines on how the word is spoken: none unless asked for; else the
/// transcriptions, or a note that there are none, and an empty line.
pub open spec fn phonetics_block(transcriptions: Seq<Seq<char>>, options: Options) -> Seq<
    Seq<char>,
> {
    if !options.phonetics {
        Seq::empty()
    } else if transcriptions.len() == 0 {
        seq![painted(Role::Missing, "[No phonetics available]"@, options.colour), Seq::empty()]
    } else {
        seq![listed(transcriptions, Role::Related, ", "@, options.colour), Seq::empty()]
    }
}

/// The lines on the syllables of the word: none unless asked for; else the
/// syllables, or a note that there are none, and an empty line.
pub open spec fn syllables_block(syllables: Seq<SyllableView>, options: Options) -> Seq<
    Seq<char>,
> {
    if !options.syllables {
        Seq::empty()
    } else if syllables.len() == 0 {
        seq![painted(Role::Missing, "[No syllables available]"@, options.colour), Seq::empty()]
    } else {
        seq![
            "Syllables: "@ + listed(
                syllables.map_values(|s: SyllableView| s.shown()),
                Role::Syllable,
                " - "@,
                options.colour,
            ),
            Seq::empty(),
        ]
    }
}

/// The line on the synonyms or on the antonyms: none unless `wanted`; else
/// the words after `title`, or the note `missing` where there are none.
pub open spec fn related_block(
    title: Seq<char>,
    missing: Seq<char>,
    words: Seq<Seq<char>>,
    wanted: bool,
    colour: bool,
) -> Seq<Seq<char>> {
    if !wanted {
        Seq::empty()
    } else if words.len() == 0 {
        seq![painted(Role::Missing, missing, colour)]
    } else {
        seq![title + listed(words, Role::Related, ", "@, colour)]
    }
}

/// The lines in which `info` is shown under options that have no
/// shorthand left in them.
pub open spec fn laid_out(info: WordInfoView, options: Options) -> Seq<Seq<char>> {
    phonetics_block(info.pronunciations, options) + syllables_block(info.syllables, options)
        + entries(shown(info.definitions, options.max as nat), options) + related_block(
        "Synonyms: "@,
        "[No synonyms available]"@,
        info.synonyms,
        options.synonyms,
        options.colour,
    ) + related_block(
        "Antonyms: "@,
        "[No antonyms available]"@,
        info.antonyms,
        options.antonyms,
        options.colour,
    )
}

/// The lines in which `info` is shown under `options`.
pub open spec fn rendered(info: WordInfoView, options: Options) -> Seq<Seq<char>> {
    laid_out(info, options.resolved())
}

/// The line that tells which word the service chose, where it chose one.
pub open spec fn announced(word: Seq<char>, random: bool, wotd: bool, colour: bool) -> Option<
    Seq<char>,
> {
    if random {
        Some("Got '"@ + painted(Role::Word, word, colour) + "'"@)
    } else if wotd {
        Some("Word of the Day is '"@ + painted(Role::Word, word, colour) + "'"@)
    } else {
        None
    }
}

/// How many lines one definition takes.
pub open spec fn lines_per_entry(options: Options) -> nat {
    if options.examples {
        2
    } else {
        1
    }
}

/// No more than `max` definitions are shown, each of them has a text, and
/// all with a text are shown where there are no more than `max`.
pub proof fn lemma_shown_bounds(definitions: Seq<DefinitionView>, max: nat)
    ensures
        shown(definitions, max).len() <= max,
        shown(definitions, max).len() <= definitions.len(),
        forall|i: int| 0 <= i < shown(definitions, max).len() ==> has_text(shown(definitions, max)[i]),
        definitions.filter(|d: DefinitionView| has_text(d)).len() <= max ==> shown(definitions, max)
            == definitions.filter(|d: DefinitionView| has_text(d)),
{
    let with_text = definitions.filter(|d: DefinitionView| has_text(d));
    definitions.lemma_filter_len(|d: DefinitionView| has_text(d));
    assert forall|i: int| 0 <= i < shown(definitions, max).len() implies has_text(
        shown(definitions, max)[i],
    ) by {
        definitions.lemma_filter_pred(|d: DefinitionView| has_text(d), i);
        assert(shown(definitions, max)[i] == with_text[i]);
    }
}

/// Every definition that is shown takes the same number of lines.
pub proof fn lemma_entries_len(definitions: Seq<DefinitionView>, options: Options)
    ensures
        entries(definitions, options).len() == definitions.len() * lines_per_entry(options),
    decreases definitions.len(),
{
    let per = lines_per_entry(options) as int;
    if definitions.len() > 0 {
        let n = definitions.drop_last().len() as int;
        lemma_entries_len(definitions.drop_last(), options);
        assert(n * per + per == (n + 1) * per) by (nonlinear_arith);
    } else {
        assert(0 * per == 0) by (nonlinear_arith);
    }
}

/// Every definition that is shown takes the same number of lines, and the
/// lines of the one in place `i` are those of its entry under the number
/// `i + 1`: the numbers run from 1 in the order shown.
pub proof fn lemma_entries_numbered(definitions: Seq<DefinitionView>, options: Options, i: int)
    requires
        0 <= i < definitions.len(),
    ensures
        entries(definitions, options).len() == definitions.len() * lines_per_entry(options),
        entries(definitions, options).subrange(
            i * lines_per_entry(options),
            (i + 1) * lines_per_entry(options),
        ) == entry((i + 1) as nat, definitions[i], options),
    decreases definitions.len(),
{
    let per = lines_per_entry(options) as int;
    let front = definitions.drop_last();
    let n = front.len() as int;
    lemma_entries_len(front, options);
    assert(n * per + per == (n + 1) * per) by (nonlinear_arith);
    let last = entry(definitions.len(), definitions.last(), options);
    assert(last.len() == per);
    if i == n {
        assert(entries(definitions, options).subrange(n * per, (n + 1) * per) =~= last);
    } else {
        lemma_entries_numbered(front, options, i);
        assert((i + 1) * per <= n * per) by (nonlinear_arith)
            requires
                i + 1 <= n,
                per >= 1,
        ;
        assert(0 <= i * per) by (nonlinear_arith)
            requires
                0 <= i,
                per >= 1,
        ;
        assert(i * per <= (i + 1) * per) by (nonlinear_arith)
            requires
                per >= 1,
        ;
        assert(entries(definitions, options).subrange(i * per, (i + 1) * per) =~= entries(
            front,
            options,
        ).subrange(i * per, (i + 1) * per));
        assert(front[i] == definitions[i]);
    }
}

/// Colour changes what stands in a line, never how many lines there are.
pub proof fn lemma_colour_keeps_line_count(info: WordInfoView, options: Options)
    ensures
        rendered(info, Options { colour: true, ..options }).len() == rendered(
            info,
            Options { colour: false, ..options },
        ).len(),
{
    let on = (Options { colour: true, ..options }).resolved();
    let off = (Options { colour: false, ..options }).resolved();
    let kept = shown(info.definitions, options.max as nat);
    lemma_entries_len(kept, on);
    lemma_entries_len(kept, off);
}

/// The line that reports a failure with the given message.
pub open spec fn reported(message: Seq<char>, colour: bool) -> Seq<char> {
    painted(Role::Failure, "Error"@, colour) + ": "@ + message
}

fn push_line(lines: &mut Vec<String>, line: String)
    ensures
        final(lines).deep_view() == old(lines).deep_view().push(line@),
{
    lines.push(line);
    assert(lines.deep_view() =~= old(lines).deep_view().push(line@));
}

fn paint_all(items: &[String], role: Role, colour: bool) -> (out: Vec<String>)
    ensures
        out.deep_view() == items.deep_view().map_values(
            |item: Seq<char>| painted(role, item, colour),
        ),
{
    let mut out: Vec<String> = Vec::new();
    let mut i: usize = 0;
    while i < items.len()
        invariant
            i <= items.len(),
            out.len() == i,
            forall|k: int| 0 <= k < i ==> out@[k]@ == painted(role, items@[k]@, colour),
        decreases items.len() - i,
    {
        out.push(paint(role, items[i].as_str(), colour));
        i += 1;
    }
    assert(out.deep_view() =~= items.deep_view().map_values(
        |item: Seq<char>| painted(role, item, colour),
    ));
    out
}

fn show_all(syllables: &[Syllable]) -> (out: Vec<String>)
    ensures
        out.deep_view() == syllables.deep_view().map_values(|s: SyllableView| s.shown()),
{
    let mut out: Vec<String> = Vec::new();
    let mut i: usize = 0;
    while i < syllables.len()
        invariant
            i <= syllables.len(),
            out.len() == i,
            forall|k: int| 0 <= k < i ==> out@[k]@ == syllables@[k].deep_view().shown(),
        decreases syllables.len() - i,
    {
        out.push(syllables[i].to_string());
        i += 1;
    }
    assert(out.deep_view() =~= syllables.deep_view().map_values(|s: SyllableView| s.shown()));
    out
}

fn list(items: &[String], role: Role, sep: &str, colour: bool) -> (out: String)
    ensures
        out@ == listed(items.deep_view(), role, sep@, colour),
{
    let coloured = paint_all(items, role, colour);
    join(&coloured, sep)
}

fn push_phonetics(lines: &mut Vec<String>, transcriptions: &[String], options: &Options)
    ensures
        final(lines).deep_view() == old(lines).deep_view() + phonetics_block(
            transcriptions.deep_view(),
            *options,
        ),
{
    let ghost block = phonetics_block(transcriptions.deep_view(), *options);
    if options.phonetics {
        if transcriptions.len() == 0 {
            push_line(lines, paint(Role::Missing, "[No phonetics available]", options.colour));
        } else {
            push_line(lines, list(transcriptions, Role::Related, ", ", options.colour));
        }
        push_line(lines, String::new());
        assert(lines.deep_view() =~= old(lines).deep_view() + block);
    } else {
        assert(lines.deep_view() =~= old(lines).deep_view() + block);
    }
}

fn push_syllables(lines: &mut Vec<String>, syllables: &[Syllable], options: &Options)
    ensures
        final(lines).deep_view() == old(lines).deep_view() + syllables_block(
            syllables.deep_view(),
            *options,
        ),
{
    let ghost block = syllables_block(syllables.deep_view(), *options);
    if options.syllables {
        if syllables.len() == 0 {
            push_line(lines, paint(Role::Missing, "[No syllables available]", options.colour));
        } else {
            let parts = show_all(syllables);
            let mut line = "Syllables: ".to_owned();
            let all = list(parts.as_slice(), Role::Syllable, " - ", options.colour);
            line.append(all.as_str());
            push_line(lines, line);
        }
        push_line(lines, String::new());
        assert(lines.deep_view() =~= old(lines).deep_view() + block);
    } else {
        assert(lines.deep_view() =~= old(lines).deep_view() + block);
    }
}

fn push_related(
    lines: &mut Vec<String>,
    title: &str,
    missing: &str,
    words: &[String],
    wanted: bool,
    colour: bool,
)
    ensures
        final(lines).deep_view() == old(lines).deep_view() + related_block(
            title@,
            missing@,
            words.deep_view(),
            wanted,
            colour,
        ),
{
    let ghost block = related_block(title@, missing@, words.deep_view(), wanted, colour);
    if wanted {
        if words.len() == 0 {
            push_line(lines, paint(Role::Missing, missing, colour));
        } else {
            let mut line = title.to_owned();
            let all = list(words, Role::Related, ", ", colour);
            line.append(all.as_str());
            push_line(lines, line);
        }
        assert(lines.deep_view() =~= old(lines).deep_view() + block);
    } else {
        assert(lines.deep_view() =~= old(lines).deep_view() + block);
    }
}

fn push_entry(
    lines: &mut Vec<String>,
    number: usize,
    definition: &Definition,
    text: &str,
    options: &Options,
)
    requires
        definition@.text == Some(text@),
    ensures
        final(lines).deep_view() == old(lines).deep_view() + entry(
            number as nat,
            definition@,
            *options,
        ),
{
    let mut index = decimal_string(number);
    index.append(".");
    let mut line = paint(Role::Index, index.as_str(), options.colour);
    line.append(" ");
    if !options.no_types {
        let kind = paint(Role::PartOfSpeech, definition.part_of_speech(), options.colour);
        line.append(kind.as_str());
        line.append(" - ");
    }
    line.append(text);
    push_line(lines, line);
    if options.examples {
        match definition.top_example() {
            Some(example) => {
                let mut shown = "e.g. ".to_owned();
                shown.append(example);
                push_line(lines, paint(Role::Example, shown.as_str(), options.colour));
            },
            None => {
                push_line(lines, paint(Role::Missing, "[No example]", options.colour));
            },
        }
    }
    assert(lines.deep_view() =~= old(lines).deep_view() + entry(
        number as nat,
        definition@,
        *options,
    ));
}

/// Of the definitions with a text, those among the first `upto` come first.
proof fn lemma_shown_prefix(definitions: Seq<DefinitionView>, upto: int, max: nat)
    requires
        0 <= upto <= definitions.len(),
        definitions.take(upto).filter(|d: DefinitionView| has_text(d)).len() <= max,
        upto == definitions.len() || definitions.take(upto).filter(
            |d: DefinitionView| has_text(d),
        ).len() == max,
    ensures
        shown(definitions, max) == definitions.take(upto).filter(|d: DefinitionView| has_text(d)),
{
    let with_text = |d: DefinitionView| has_text(d);
    let front = definitions.take(upto);
    let back = definitions.skip(upto);
    assert(front + back =~= definitions);
    Seq::filter_distributes_over_add(front, back, with_text);
    let all = definitions.filter(with_text);
    assert(all == front.filter(with_text) + back.filter(with_text));
    if upto == definitions.len() {
        assert(back =~= Seq::<DefinitionView>::empty());
        reveal(Seq::filter);
        assert(back.filter(with_text) =~= Seq::<DefinitionView>::empty());
        assert(all =~= front.filter(with_text));
    } else {
        assert(all.take(max as int) =~= front.filter(with_text));
        if !(max < all.len()) {
            assert(all =~= front.filter(with_text));
        }
    }
}

fn push_definitions(lines: &mut Vec<String>, definitions: &[Definition], options: &Options)
    ensures
        final(lines).deep_view() == old(lines).deep_view() + entries(
            shown(definitions.deep_view(), options.max as nat),
            *options,
        ),
{
    let ghost all = definitions.deep_view();
    let ghost with_text = |d: DefinitionView| has_text(d);
    let mut count: usize = 0;
    let mut i: usize = 0;
    proof {
        reveal(Seq::filter);
        assert(all.take(0).filter(with_text) =~= Seq::<DefinitionView>::empty());
        assert(lines.deep_view() =~= old(lines).deep_view() + Seq::<Seq<char>>::empty());
    }
    while i < definitions.len() && count < options.max
        invariant
            i <= definitions.len(),
            count <= options.max,
            all == definitions.deep_view(),
            with_text == |d: DefinitionView| has_text(d),
            count == all.take(i as int).filter(with_text).len(),
            lines.deep_view() == old(lines).deep_view() + entries(
                all.take(i as int).filter(with_text),
                *options,
            ),
        decreases definitions.len() - i,
    {
        let definition = &definitions[i];
        let ghost seen = all.take(i as int).filter(with_text);
        let ghost before = lines.deep_view();
        proof {
            all.take(i as int).lemma_filter_push(all[i as int], with_text);
            assert(all.take(i as int).push(all[i as int]) =~= all.take(i + 1));
            assert(all[i as int] == definition@);
        }
        match definition.text() {
            Some(text) => {
                count += 1;
                push_entry(lines, count, definition, text, options);
                proof {
                    let now = seen.push(definition@);
                    assert(now.drop_last() =~= seen);
                    assert(lines.deep_view() =~= old(lines).deep_view() + entries(now, *options));
                }
            },
            None => {},
        }
        i += 1;
    }
    proof {
        lemma_shown_prefix(all, i as int, options.max as nat);
    }
}

/// The lines in which `info` is shown under `options`: how the word is
/// spoken, its syllables, its definitions, its synonyms and its antonyms, as
/// far as each is asked for.
///
/// Of the definitions only those with a text are shown, `options.max` of
/// them at most, numbered from 1 in the order in which they are shown.
pub fn render(info: &WordInfo, options: &Options) -> (lines: Vec<String>)
    ensures
        lines.deep_view() == rendered(info@, *options),
{
    let options = options.resolve();
    let mut lines: Vec<String> = Vec::new();
    assert(lines.deep_view() =~= Seq::<Seq<char>>::empty());
    push_phonetics(&mut lines, info.pronunciations(), &options);
    push_syllables(&mut lines, info.syllables(), &options);
    push_definitions(&mut lines, info.definitions(), &options);
    push_related(
        &mut lines,
        "Synonyms: ",
        "[No synonyms available]",
        info.synonyms(),
        options.synonyms,
        options.colour,
    );
    push_related(
        &mut lines,
        "Antonyms: ",
        "[No antonyms available]",
        info.antonyms(),
        options.antonyms,
        options.colour,
    );
    assert(lines.deep_view() =~= laid_out(info@, options));
    lines
}

/// The line that tells which word the service chose: a random one where
/// `random` is set, else the word of the day where `wotd` is set, else none.
pub fn announce(word: &str, random: bool, wotd: bool, colour: bool) -> (out: Option<String>)
    ensures
        out.deep_view() == announced(word@, random, wotd, colour),
{
    if random {
        let mut line = "Got '".to_owned();
        let name = paint(Role::Word, word, colour);
        line.append(name.as_str());
        line.append("'");
        Some(line)
    } else if wotd {
        let mut line = "Word of the Day is '".to_owned();
        let name = paint(Role::Word, word, colour);
        line.append(name.as_str());
        line.append("'");
        Some(line)
    } else {
        None
    }
}

/// The line that reports a failure with the given message.
pub fn report(message: &str, colour: bool) -> (out: String)
    ensures
        out@ == reported(message@, colour),
{
    let mut line = paint(Role::Failure, "Error", colour);
    line.append(": ");
    line.append(message);
    line
}

} // verus!
