//! Text operations on request data: UTF-8 decoding, splitting at a
//! character, prefix and suffix tests.

use vstd::prelude::*;
use vstd::utf8::{encode_utf8, valid_utf8};

verus! {

/// Calls `std::str::from_utf8`. Claimed: it succeeds exactly on valid UTF-8,
/// and the text it gives has the input as its bytes.
#[verifier::external_body]
pub(crate) fn utf8_text(bytes: &[u8]) -> (res: Option<&str>)
    ensures
        res is Some <==> valid_utf8(bytes@),
        res matches Some(text) ==> encode_utf8(text@) == bytes@,
{
    std::str::from_utf8(bytes).ok()
}

/// Whether `parts` splits `text` at the first occurrence of `sep`.
pub open spec fn splits_at_first(text: Seq<char>, sep: char, before: Seq<char>, after: Seq<char>) -> bool {
    text == before + seq![sep] + after && !before.contains(sep)
}

/// Splits `text` at the first occurrence of `sep`, as `str::split_once`
/// does with a character: `None` where `sep` does not occur.
pub fn split_once_at<'a>(text: &'a str, sep: char) -> (res: Option<(&'a str, &'a str)>)
    ensures
        res is Some <==> text@.contains(sep),
        res matches Some(parts) ==> splits_at_first(text@, sep, parts.0@, parts.1@),
{
    let n = text.unicode_len();
    let mut i: usize = 0;
    while i < n
        invariant
            n == text@.len(),
            i <= n,
            forall|j: int| 0 <= j < i ==> text@[j] != sep,
        decreases n - i,
    {
        if text.get_char(i) == sep {
            let before = text.substring_char(0, i);
            let after = text.substring_char(i + 1, n);
            assert(text@ =~= before@ + seq![sep] + after@);
            assert(!before@.contains(sep));
            assert(text@.contains(sep)) by {
                assert(text@[i as int] == sep);
            }
            return Some((before, after));
        }
        i = i + 1;
    }
    assert(!text@.contains(sep));
    None
}

/// Whether `text` begins with `prefix`.
pub open spec fn starts_with(text: Seq<char>, prefix: Seq<char>) -> bool {
    prefix.len() <= text.len() && text.take(prefix.len() as int) == prefix
}

/// Whether `text` ends with `suffix`.
pub open spec fn ends_with(text: Seq<char>, suffix: Seq<char>) -> bool {
    suffix.len() <= text.len() && text.skip(text.len() - suffix.len()) == suffix
}

/// Whether `text` begins with `prefix`.
pub fn has_prefix(text: &str, prefix: &str) -> (res: bool)
    ensures
        res == starts_with(text@, prefix@),
{
    let n = text.unicode_len();
    let m = prefix.unicode_len();
    if m > n {
        return false;
    }
    let mut i: usize = 0;
    while i < m
        invariant
            m == prefix@.len(),
            n == text@.len(),
            m <= n,
            i <= m,
            forall|j: int| 0 <= j < i ==> text@[j] == prefix@[j],
        decreases m - i,
    {
        if text.get_char(i) != prefix.get_char(i) {
            assert(text@.take(m as int)[i as int] != prefix@[i as int]);
            return false;
        }
        i = i + 1;
    }
    assert(text@.take(m as int) =~= prefix@);
    true
}

/// Whether `text` ends with `suffix`.
pub fn has_suffix(text: &str, suffix: &str) -> (res: bool)
    ensures
        res == ends_with(text@, suffix@),
{
    let n = text.unicode_len();
    let m = suffix.unicode_len();
    if m > n {
        return false;
    }
    let d = n - m;
    let mut i: usize = 0;
    while i < m
        invariant
            m == suffix@.len(),
            n == text@.len(),
            d == n - m,
            i <= m,
            forall|j: int| 0 <= j < i ==> text@[d + j] == suffix@[j],
        decreases m - i,
    {
        if text.get_char(d + i) != suffix.get_char(i) {
            assert(text@.skip(d as int)[i as int] != suffix@[i as int]);
            return false;
        }
        i = i + 1;
    }
    assert(text@.skip(d as int) =~= suffix@);
    true
}

/// Whether `a` and `b` are the same text.
pub fn same_text(a: &str, b: &str) -> (res: bool)
    ensures
        res == (a@ == b@),
{
    let n = a.unicode_len();
    if n != b.unicode_len() {
        return false;
    }
    let mut i: usize = 0;
    while i < n
        invariant
            n == a@.len(),
            n == b@.len(),
            i <= n,
            forall|j: int| 0 <= j < i ==> a@[j] == b@[j],
        decreases n - i,
    {
        if a.get_char(i) != b.get_char(i) {
            return false;
        }
        i = i + 1;
    }
    assert(a@ =~= b@);
    true
}

} // verus!
