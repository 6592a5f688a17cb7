//! Removal of angle-bracket markup from free text.
//!
//! A tag starts at a `<` that has a `>` somewhere after it and runs up to the
//! first such `>`. Tags are found from left to right and do not overlap.

use vstd::prelude::*;
use crate::chars::{chars_of, string_of};

verus! {

/// Whether `s` holds no tag: no `<` with a `>` anywhere after it.
pub open spec fn tag_free(s: Seq<char>) -> bool {
    forall|i: int, j: int| 0 <= i < j < s.len() ==> !(s[i] == '<' && s[j] == '>')
}

/// Whether some `>` stands in `s` after position `at`.
pub open spec fn closes_after(s: Seq<char>, at: int) -> bool {
    exists|j: int| at < j < s.len() && s[j] == '>'
}

/// What is left of `s[from..]` once its tags are gone, where `inside` says
/// that position `from` lies within a tag that opened earlier.
pub open spec fn stripped_from(s: Seq<char>, from: int, inside: bool) -> Seq<char>
    decreases s.len() - from,
{
    if from < 0 || from >= s.len() {
        Seq::empty()
    } else if inside {
        stripped_from(s, from + 1, s[from] != '>')
    } else if s[from] == '<' && closes_after(s, from) {
        stripped_from(s, from + 1, true)
    } else {
        seq![s[from]] + stripped_from(s, from + 1, false)
    }
}

/// `s` without its tags.
pub open spec fn stripped(s: Seq<char>) -> Seq<char> {
    stripped_from(s, 0, false)
}

/// What is left of a text after stripping holds no `>` unless the text did.
proof fn lemma_stripped_keeps_no_close(s: Seq<char>, from: int, inside: bool)
    requires
        0 <= from <= s.len(),
        forall|j: int| from <= j < s.len() ==> s[j] != '>',
    ensures
        !stripped_from(s, from, inside).contains('>'),
    decreases s.len() - from,
{
    let whole = stripped_from(s, from, inside);
    if from < s.len() {
        if inside {
            lemma_stripped_keeps_no_close(s, from + 1, s[from] != '>');
        } else if s[from] == '<' && closes_after(s, from) {
            lemma_stripped_keeps_no_close(s, from + 1, true);
        } else {
            let rest = stripped_from(s, from + 1, false);
            lemma_stripped_keeps_no_close(s, from + 1, false);
            assert forall|k: int| 0 <= k < whole.len() implies whole[k] != '>' by {
                if k > 0 {
                    assert(whole[k] == rest[k - 1]);
                    assert(rest.contains(rest[k - 1]));
                }
            }
        }
    }
}

proof fn lemma_stripped_from_tag_free(s: Seq<char>, from: int, inside: bool)
    requires
        0 <= from <= s.len(),
    ensures
        tag_free(stripped_from(s, from, inside)),
    decreases s.len() - from,
{
    if from < s.len() {
        if inside {
            lemma_stripped_from_tag_free(s, from + 1, s[from] != '>');
        } else if s[from] == '<' && closes_after(s, from) {
            lemma_stripped_from_tag_free(s, from + 1, true);
        } else {
            let rest = stripped_from(s, from + 1, false);
            lemma_stripped_from_tag_free(s, from + 1, false);
            if s[from] == '<' {
                assert forall|j: int| from + 1 <= j < s.len() implies s[j] != '>' by {
                    if s[j] == '>' {
                        assert(closes_after(s, from));
                    }
                }
                lemma_stripped_keeps_no_close(s, from + 1, false);
            }
            let whole = seq![s[from]] + rest;
            assert forall|i: int, j: int| 0 <= i < j < whole.len() implies !(whole[i] == '<'
                && whole[j] == '>') by {
                if i > 0 {
                    assert(whole[i] == rest[i - 1]);
                }
                assert(whole[j] == rest[j - 1]);
                assert(rest.contains(rest[j - 1]));
            }
        }
    }
}

proof fn lemma_tag_free_unchanged_from(s: Seq<char>, from: int)
    requires
        tag_free(s),
        0 <= from <= s.len(),
    ensures
        stripped_from(s, from, false) == s.skip(from),
    decreases s.len() - from,
{
    if from < s.len() {
        if s[from] == '<' && closes_after(s, from) {
            let j = choose|j: int| from < j < s.len() && s[j] == '>';
            assert(!(s[from] == '<' && s[j] == '>'));
        }
        lemma_tag_free_unchanged_from(s, from + 1);
        assert(seq![s[from]] + s.skip(from + 1) =~= s.skip(from));
    } else {
        assert(s.skip(from) =~= Seq::<char>::empty());
    }
}

/// What is left from a position on depends on the text from there on only.
proof fn lemma_stripped_from_suffix(s: Seq<char>, from: int, inside: bool)
    requires
        0 <= from <= s.len(),
    ensures
        stripped_from(s, from, inside) == stripped_from(s.skip(from), 0, inside),
    decreases s.len() - from,
{
    let tail = s.skip(from);
    if from < s.len() {
        assert(tail[0] == s[from]);
        assert(tail.skip(1) =~= s.skip(from + 1));
        if closes_after(s, from) {
            let j = choose|j: int| from < j < s.len() && s[j] == '>';
            assert(tail[j - from] == '>');
        }
        if closes_after(tail, 0) {
            let j = choose|j: int| 0 < j < tail.len() && tail[j] == '>';
            assert(s[from + j] == '>');
        }
        let next = if inside {
            s[from] != '>'
        } else {
            s[from] == '<' && closes_after(s, from)
        };
        lemma_stripped_from_suffix(s, from + 1, next);
        lemma_stripped_from_suffix(tail, 1, next);
    }
}

/// Inside a tag nothing is kept up to its `>`.
proof fn lemma_stripped_skips_inside(s: Seq<char>, from: int, close: int)
    requires
        0 <= from <= close < s.len(),
        s[close] == '>',
        forall|k: int| from <= k < close ==> s[k] != '>',
    ensures
        stripped_from(s, from, true) == stripped_from(s, close + 1, false),
    decreases close - from,
{
    if from < close {
        lemma_stripped_skips_inside(s, from + 1, close);
    }
}

/// Text without a `<` is kept up to the first one.
proof fn lemma_stripped_keeps_outside(s: Seq<char>, from: int, open: int)
    requires
        0 <= from <= open <= s.len(),
        forall|k: int| from <= k < open ==> s[k] != '<',
    ensures
        stripped_from(s, from, false) == s.subrange(from, open) + stripped_from(s, open, false),
    decreases open - from,
{
    if from < open {
        lemma_stripped_keeps_outside(s, from + 1, open);
        assert(seq![s[from]] + s.subrange(from + 1, open) =~= s.subrange(from, open));
        assert(seq![s[from]] + (s.subrange(from + 1, open) + stripped_from(s, open, false))
            =~= s.subrange(from, open) + stripped_from(s, open, false));
    } else {
        assert(s.subrange(from, open) + stripped_from(s, open, false) =~= stripped_from(
            s,
            open,
            false,
        ));
    }
}

/// A tag goes, and what stands before it stays: where `before` holds no `<`
/// and `inner` no `>`, stripping `before<inner>after` gives `before` and
/// then what stripping `after` gives.
pub proof fn lemma_stripped_removes_tag(before: Seq<char>, inner: Seq<char>, after: Seq<char>)
    requires
        !before.contains('<'),
        !inner.contains('>'),
    ensures
        stripped(before + seq!['<'] + inner + seq!['>'] + after) == before + stripped(after),
{
    let s = before + seq!['<'] + inner + seq!['>'] + after;
    let open = before.len() as int;
    let close = open + 1 + inner.len();
    assert forall|k: int| 0 <= k < open implies s[k] != '<' by {
        assert(s[k] == before[k]);
        assert(before.contains(before[k]));
    }
    assert forall|k: int| open + 1 <= k < close implies s[k] != '>' by {
        assert(s[k] == inner[k - open - 1]);
        assert(inner.contains(inner[k - open - 1]));
    }
    assert(s[open] == '<');
    assert(s[close] == '>');
    assert(closes_after(s, open));
    lemma_stripped_keeps_outside(s, 0, open);
    lemma_stripped_skips_inside(s, open + 1, close);
    lemma_stripped_from_suffix(s, close + 1, false);
    assert(s.subrange(0, open) =~= before);
    assert(s.skip(close + 1) =~= after);
}

/// Stripping leaves no tag behind.
pub proof fn lemma_stripped_is_tag_free(s: Seq<char>)
    ensures
        tag_free(stripped(s)),
{
    lemma_stripped_from_tag_free(s, 0, false);
}

/// A text without tags is left as it is.
pub proof fn lemma_tag_free_is_unchanged(s: Seq<char>)
    requires
        tag_free(s),
    ensures
        stripped(s) == s,
{
    lemma_tag_free_unchanged_from(s, 0);
    assert(s.skip(0) =~= s);
}

/// Stripping twice gives what stripping once gives.
pub proof fn lemma_stripped_idempotent(s: Seq<char>)
    ensures
        stripped(stripped(s)) == stripped(s),
{
    lemma_stripped_is_tag_free(s);
    lemma_tag_free_is_unchanged(stripped(s));
}

/// One more than the position of the last `>` in `chars`, or 0 if there is none.
fn close_bound(chars: &Vec<char>) -> (bound: usize)
    ensures
        bound <= chars.len(),
        forall|at: int| 0 <= at < chars.len() ==> (closes_after(chars@, at) <==> at + 1 < bound),
{
    let mut bound: usize = 0;
    let mut k: usize = 0;
    while k < chars.len()
        invariant
            k <= chars.len(),
            bound <= k,
            bound > 0 ==> chars@[bound - 1] == '>',
            forall|j: int| bound <= j < k ==> chars@[j] != '>',
        decreases chars.len() - k,
    {
        if chars[k] == '>' {
            bound = k + 1;
        }
        k += 1;
    }
    assert forall|at: int| 0 <= at < chars.len() implies (closes_after(chars@, at) <==> at + 1
        < bound) by {
        if at + 1 < bound {
            assert(at < bound - 1 < chars@.len() && chars@[bound - 1] == '>');
        }
    }
    bound
}

/// Removes every tag from `txt`.
pub fn remove_tags(txt: &str) -> (out: String)
    ensures
        out@ == stripped(txt@),
        tag_free(out@),
{
    let chars = chars_of(txt);
    let bound = close_bound(&chars);
    let mut kept: Vec<char> = Vec::new();
    let mut inside = false;
    let mut i: usize = 0;
    while i < chars.len()
        invariant
            i <= chars.len(),
            chars@ == txt@,
            bound <= chars.len(),
            forall|at: int|
                0 <= at < chars.len() ==> (closes_after(chars@, at) <==> at + 1 < bound),
            kept@ + stripped_from(chars@, i as int, inside) == stripped(chars@),
        decreases chars.len() - i,
    {
        let c = chars[i];
        let ghost before = kept@;
        if inside {
            inside = c != '>';
        } else if c == '<' && i + 1 < bound {
            inside = true;
        } else {
            kept.push(c);
            assert(kept@ + stripped_from(chars@, i + 1, false) =~= before + (seq![c]
                + stripped_from(chars@, i + 1, false)));
        }
        i += 1;
    }
    proof {
        assert(kept@ + Seq::<char>::empty() =~= kept@);
        lemma_stripped_is_tag_free(txt@);
    }
    string_of(kept.as_slice())
}

} // verus!
