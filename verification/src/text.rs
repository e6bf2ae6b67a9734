//! Operations of the standard library on strings, with what the rest of the
//! crate relies on in them.

use vstd::prelude::*;

verus! {

/// The lower-case form of a string, as Unicode defines it.
pub uninterp spec fn lowercased(s: Seq<char>) -> Seq<char>;

/// White space, as Unicode defines it: the characters with the property
/// `White_Space`.
pub open spec fn is_white_space(c: char) -> bool {
    let n = c as u32;
    (0x09 <= n && n <= 0x0D) || n == 0x20 || n == 0x85 || n == 0xA0 || n == 0x1680 || (0x2000 <= n
        && n <= 0x200A) || n == 0x2028 || n == 0x2029 || n == 0x202F || n == 0x205F || n == 0x3000
}

/// A string without the white space at its start.
pub open spec fn without_leading_space(s: Seq<char>) -> Seq<char>
    decreases s.len(),
{
    if s.len() > 0 && is_white_space(s[0]) {
        without_leading_space(s.drop_first())
    } else {
        s
    }
}

/// A string without the white space at its end.
pub open spec fn without_trailing_space(s: Seq<char>) -> Seq<char>
    decreases s.len(),
{
    if s.len() > 0 && is_white_space(s.last()) {
        without_trailing_space(s.drop_last())
    } else {
        s
    }
}

/// A string without its leading and trailing white space.
pub open spec fn trimmed(s: Seq<char>) -> Seq<char> {
    without_trailing_space(without_leading_space(s))
}

/// A decimal digit.
pub open spec fn is_digit(c: char) -> bool {
    '0' <= c && c <= '9'
}

/// The number that a run of decimal digits denotes.
pub open spec fn digits_value(digits: Seq<char>) -> nat
    decreases digits.len(),
{
    if digits.len() == 0 {
        0
    } else {
        digits_value(digits.drop_last()) * 10 + ((digits.last() as u32 - '0' as u32) as nat)
    }
}

/// A numeral without its sign: what follows a leading `+`, or all of it.
pub open spec fn unsigned_part(s: Seq<char>) -> Seq<char> {
    if s.len() > 0 && s[0] == '+' {
        s.drop_first()
    } else {
        s
    }
}

/// The number that a numeral denotes. A numeral is one or more decimal
/// digits, with or without a `+` before them, and nothing else.
pub open spec fn numeral_value(s: Seq<char>) -> Option<nat> {
    let digits = unsigned_part(s);
    if digits.len() > 0 && (forall|i: int| 0 <= i < digits.len() ==> is_digit(#[trigger] digits[i])) {
        Some(digits_value(digits))
    } else {
        None
    }
}

/// The number that a numeral denotes, where it fits in 64 bits.
pub open spec fn parsed_u64(s: Seq<char>) -> Option<u64> {
    match numeral_value(s) {
        Some(n) => if n <= u64::MAX {
            Some(n as u64)
        } else {
            None
        },
        None => None,
    }
}

/// The number that a numeral denotes, where it fits in 16 bits.
pub open spec fn parsed_u16(s: Seq<char>) -> Option<u16> {
    match numeral_value(s) {
        Some(n) => if n <= u16::MAX {
            Some(n as u16)
        } else {
            None
        },
        None => None,
    }
}

/// `needle` occurs in `hay` as a run of consecutive characters.
pub open spec fn has_substring(hay: Seq<char>, needle: Seq<char>) -> bool {
    exists|i: int|
        0 <= i && i + needle.len() <= hay.len() && #[trigger] hay.subrange(i, i + needle.len())
            == needle
}

/// The part of `s` before the first `sep`, or all of `s` when it holds none.
pub open spec fn before_first(s: Seq<char>, sep: char) -> Seq<char>
    decreases s.len(),
{
    if s.len() == 0 || s[0] == sep {
        Seq::empty()
    } else {
        seq![s[0]] + before_first(s.drop_first(), sep)
    }
}

/// `str::to_lowercase`. Trusted: the result is the lower-case form of `s`.
#[verifier::external_body]
pub(crate) fn to_lowercase(s: &str) -> (res: String)
    ensures
        res@ == lowercased(s@),
{
    s.to_lowercase()
}

/// `str::contains` with a string pattern. Trusted: it tells whether `needle`
/// occurs in `hay`.
#[verifier::external_body]
pub(crate) fn contains(hay: &str, needle: &str) -> (res: bool)
    ensures
        res == has_substring(hay@, needle@),
{
    hay.contains(needle)
}

/// `str::split_once` with a character. Trusted: when `sep` occurs, the two
/// parts are what stands before its first occurrence and what stands after
/// it; when it does not, the result is `None`.
#[verifier::external_body]
pub(crate) fn split_once(s: &str, sep: char) -> (res: Option<(String, String)>)
    ensures
        match res {
            Some((head, tail)) => s@ == head@ + seq![sep] + tail@ && !head@.contains(sep),
            None => !s@.contains(sep),
        },
{
    s.split_once(sep).map(|(head, tail)| (head.to_string(), tail.to_string()))
}

/// Equality of two string slices, `str::eq`. Trusted: it holds exactly when
/// the two hold the same characters.
#[verifier::external_body]
pub(crate) fn same_text(a: &str, b: &str) -> (res: bool)
    ensures
        res == (a@ == b@),
{
    a == b
}

/// `str::trim`. Trusted: the result is `s` without the characters of
/// Unicode white space at its start and at its end.
#[verifier::external_body]
pub(crate) fn trim(s: &str) -> (res: String)
    ensures
        res@ == trimmed(s@),
{
    s.trim().to_string()
}

/// `str::parse` to a `u64`. Trusted: the result is the number that `s`
/// denotes, where `s` is decimal digits with or without a `+` before them
/// and the number fits; `None` for any other string.
#[verifier::external_body]
pub(crate) fn parse_u64(s: &str) -> (res: Option<u64>)
    ensures
        res == parsed_u64(s@),
{
    s.parse::<u64>().ok()
}

/// `str::parse` to a `u16`. Trusted: the result is the number that `s`
/// denotes, where `s` is decimal digits with or without a `+` before them
/// and the number fits; `None` for any other string.
#[verifier::external_body]
pub(crate) fn parse_u16(s: &str) -> (res: Option<u16>)
    ensures
        res == parsed_u16(s@),
{
    s.parse::<u16>().ok()
}

/// What stands before the first `sep` is `head` when `s` is `head`, `sep` and
/// a rest, and `head` holds no `sep`.
pub proof fn lemma_before_first_of_split(head: Seq<char>, sep: char, tail: Seq<char>)
    requires
        !head.contains(sep),
    ensures
        before_first(head + seq![sep] + tail, sep) == head,
    decreases head.len(),
{
    let s = head + seq![sep] + tail;
    if head.len() == 0 {
        assert(s[0] == sep);
        assert(head =~= Seq::empty());
    } else {
        assert(head[0] != sep) by {
            assert(head.contains(head[0]));
        }
        assert(s[0] == head[0]);
        let rest = head.drop_first();
        assert(!rest.contains(sep)) by {
            if rest.contains(sep) {
                let j = choose|j: int| 0 <= j < rest.len() && rest[j] == sep;
                assert(head[j + 1] == sep);
                assert(head.contains(sep));
            }
        }
        lemma_before_first_of_split(rest, sep, tail);
        assert(s.drop_first() =~= rest + seq![sep] + tail);
        assert(seq![head[0]] + rest =~= head);
    }
}

/// A string without `sep` stands whole before the first `sep`.
pub proof fn lemma_before_first_without(s: Seq<char>, sep: char)
    requires
        !s.contains(sep),
    ensures
        before_first(s, sep) == s,
    decreases s.len(),
{
    if s.len() == 0 {
        assert(s =~= Seq::empty());
    } else {
        assert(s[0] != sep) by {
            assert(s.contains(s[0]));
        }
        let rest = s.drop_first();
        assert(!rest.contains(sep)) by {
            if rest.contains(sep) {
                let j = choose|j: int| 0 <= j < rest.len() && rest[j] == sep;
                assert(s[j + 1] == sep);
                assert(s.contains(sep));
            }
        }
        lemma_before_first_without(rest, sep);
        assert(seq![s[0]] + rest =~= s);
    }
}

/// The part of `s` before its first `sep`.
pub fn first_segment(s: &str, sep: char) -> (res: String)
    ensures
        res@ == before_first(s@, sep),
{
    match split_once(s, sep) {
        Some((head, tail)) => {
            proof {
                lemma_before_first_of_split(head@, sep, tail@);
            }
            head
        },
        None => {
            proof {
                lemma_before_first_without(s@, sep);
            }
            s.to_owned()
        },
    }
}

} // verus!
