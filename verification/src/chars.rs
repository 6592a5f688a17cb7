//! Strings as sequences of characters.

use vstd::prelude::*;

verus! {

/// The lower-case form of an ASCII capital; any other character itself.
pub open spec fn ascii_lower(c: char) -> char {
    if 'A' <= c && c <= 'Z' {
        ((c as u8) + 32) as char
    } else {
        c
    }
}

/// `s` with its ASCII capitals in lower case.
pub open spec fn folded(s: Seq<char>) -> Seq<char> {
    s.map_values(|c: char| ascii_lower(c))
}

/// `s` without its double quotation marks.
pub open spec fn unquoted(s: Seq<char>) -> Seq<char> {
    s.filter(|c: char| c != '"')
}

/// The decimal digit for `d`.
pub open spec fn digit(d: nat) -> char
    recommends
        d < 10,
{
    ((48 + d) as u8) as char
}

/// `n` written in decimal, without leading zeros.
pub open spec fn decimal(n: nat) -> Seq<char>
    decreases n,
{
    if n < 10 {
        seq![digit(n)]
    } else {
        decimal(n / 10).push(digit(n % 10))
    }
}

/// The items of `items` in order, with `sep` between each two neighbours.
pub open spec fn joined(items: Seq<Seq<char>>, sep: Seq<char>) -> Seq<char>
    decreases items.len(),
{
    if items.len() == 0 {
        Seq::empty()
    } else if items.len() == 1 {
        items[0]
    } else {
        joined(items.drop_last(), sep) + sep + items.last()
    }
}

/// The characters of `text`, in order.
pub fn chars_of(text: &str) -> (out: Vec<char>)
    ensures
        out@ == text@,
{
    let mut out: Vec<char> = Vec::new();
    for c in it: text.chars()
        invariant
            it.seq() == text@,
            out@ == it.seq().take(it.index()),
    {
        out.push(c);
    }
    out
}

/// `String::from_iter` over the characters of a slice: the string that reads
/// as exactly those characters, in their order.
#[verifier::external_body]
pub(crate) fn string_of(chars: &[char]) -> (out: String)
    ensures
        out@ == chars@,
{
    String::from_iter(chars.iter())
}

/// Whether two texts read the same once ASCII capitals count as lower case.
pub fn eq_ignore_ascii_case(a: &str, b: &str) -> (same: bool)
    ensures
        same == (folded(a@) == folded(b@)),
{
    let left = chars_of(a);
    let right = chars_of(b);
    if left.len() != right.len() {
        assert(folded(a@).len() != folded(b@).len());
        return false;
    }
    let mut i: usize = 0;
    while i < left.len()
        invariant
            i <= left.len(),
            left.len() == right.len(),
            left@ == a@,
            right@ == b@,
            forall|k: int| 0 <= k < i ==> ascii_lower(left@[k]) == ascii_lower(right@[k]),
        decreases left.len() - i,
    {
        if to_lower(left[i]) != to_lower(right[i]) {
            assert(folded(a@)[i as int] != folded(b@)[i as int]);
            return false;
        }
        i += 1;
    }
    assert(folded(a@) =~= folded(b@));
    true
}

/// The lower-case form of an ASCII capital; any other character itself.
pub fn to_lower(c: char) -> (out: char)
    ensures
        out == ascii_lower(c),
{
    if 'A' <= c && c <= 'Z' {
        ((c as u8) + 32) as char
    } else {
        c
    }
}

/// `text` without its double quotation marks.
pub fn strip_quotes(text: &str) -> (out: String)
    ensures
        out@ == unquoted(text@),
{
    let chars = chars_of(text);
    let mut kept: Vec<char> = Vec::new();
    let mut i: usize = 0;
    while i < chars.len()
        invariant
            i <= chars.len(),
            chars@ == text@,
            kept@ == unquoted(chars@.take(i as int)),
        decreases chars.len() - i,
    {
        proof {
            let keep = |c: char| c != '"';
            chars@.take(i as int).lemma_filter_push(chars@[i as int], keep);
            assert(chars@.take(i as int).push(chars@[i as int]) =~= chars@.take(i + 1));
        }
        if chars[i] != '"' {
            kept.push(chars[i]);
        }
        i += 1;
    }
    proof {
        reveal(Seq::filter);
        assert(chars@.take(chars.len() as int) =~= chars@);
    }
    string_of(kept.as_slice())
}

/// `n` written in decimal.
pub fn decimal_string(n: usize) -> (out: String)
    ensures
        out@ == decimal(n as nat),
{
    let digits = decimal_digits(n);
    string_of(digits.as_slice())
}

fn decimal_digits(n: usize) -> (out: Vec<char>)
    ensures
        out@ == decimal(n as nat),
    decreases n,
{
    if n < 10 {
        let mut out: Vec<char> = Vec::new();
        out.push(((48 + n) as u8) as char);
        out
    } else {
        let mut out = decimal_digits(n / 10);
        out.push(((48 + n % 10) as u8) as char);
        out
    }
}

/// The texts of `items` in order, with `sep` between each two neighbours.
pub fn join(items: &Vec<String>, sep: &str) -> (out: String)
    ensures
        out@ == joined(items.deep_view(), sep@),
{
    let mut out = String::new();
    let mut i: usize = 0;
    while i < items.len()
        invariant
            i <= items.len(),
            out@ == joined(items.deep_view().take(i as int), sep@),
        decreases items.len() - i,
    {
        let ghost upto = items.deep_view().take(i + 1);
        assert(upto.drop_last() =~= items.deep_view().take(i as int));
        assert(upto.last() == items@[i as int]@);
        if i > 0 {
            out.append(sep);
        }
        out.append(items[i].as_str());
        i += 1;
    }
    assert(items.deep_view().take(items.len() as int) =~= items.deep_view());
    out
}

} // verus!
