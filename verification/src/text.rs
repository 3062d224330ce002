//! Small verified text helpers shared by the rest of the library: decimal
//! rendering of build numbers, locating separator characters, and the suffix
//! of a path after its last slash.

use vstd::prelude::*;
use vstd::string::*;

verus! {

/// The decimal digit character for a value below ten.
pub open spec fn digit_char(d: u64) -> char
    recommends
        d < 10,
{
    ((d + 0x30) as u8) as char
}

/// The decimal rendering of `n`, most significant digit first.
pub open spec fn decimal_chars(n: u64) -> Seq<char>
    decreases n,
{
    if n < 10 {
        seq![digit_char(n)]
    } else {
        decimal_chars((n / 10) as u64).push(digit_char((n % 10) as u64))
    }
}

/// Relies on `String::push`: appends exactly one character at the end.
#[verifier::external_body]
pub(crate) fn push_char(s: &mut String, c: char)
    ensures
        final(s)@ == old(s)@.push(c),
{
    s.push(c);
}

/// Writes the decimal digits of `n` onto the end of `s`.
pub fn push_decimal(s: &mut String, n: u64)
    ensures
        final(s)@ == old(s)@ + decimal_chars(n),
    decreases n,
{
    if n >= 10 {
        push_decimal(s, n / 10);
    }
    let d: u8 = 0x30u8 + (n % 10) as u8;
    push_char(s, d as char);
    proof {
        assert(s@ =~= old(s)@ + decimal_chars(n));
    }
}

/// The decimal rendering of `n` as an owned string.
pub fn decimal_string(n: u64) -> (r: String)
    ensures
        r@ == decimal_chars(n),
{
    let mut s = String::new();
    push_decimal(&mut s, n);
    proof {
        assert(s@ =~= decimal_chars(n));
    }
    s
}

/// The suffix of `s` after the last occurrence of `c`; all of `s` when `c`
/// does not occur.
pub open spec fn after_last(s: Seq<char>, c: char) -> Seq<char>
    decreases s.len(),
{
    if s.len() == 0 {
        s
    } else if s.last() == c {
        Seq::empty()
    } else {
        after_last(s.drop_last(), c).push(s.last())
    }
}

proof fn lemma_after_last_from_cut(s: Seq<char>, c: char, cut: int)
    requires
        0 <= cut <= s.len(),
        cut == 0 || s[cut - 1] == c,
        forall|j: int| cut <= j < s.len() ==> s[j] != c,
    ensures
        after_last(s, c) == s.subrange(cut, s.len() as int),
    decreases s.len(),
{
    if s.len() == 0 {
        assert(after_last(s, c) =~= s.subrange(cut, s.len() as int));
    } else if cut == s.len() {
        assert(s.last() == c);
        assert(after_last(s, c) =~= s.subrange(cut, s.len() as int));
    } else {
        assert(s[s.len() - 1] != c);
        lemma_after_last_from_cut(s.drop_last(), c, cut);
        assert(after_last(s, c) =~= s.subrange(cut, s.len() as int));
    }
}

/// The segment of `s` after its last occurrence of `c`; for a path and `/`,
/// the display name of its final segment.
pub fn suffix_after_last(s: &str, c: char) -> (r: String)
    ensures
        r@ == after_last(s@, c),
{
    let n: usize = s.unicode_len();
    let mut cut: usize = 0;
    let mut i: usize = 0;
    while i < n
        invariant
            cut <= i <= n,
            n == s@.len(),
            cut == 0 || s@[cut - 1] == c,
            forall|j: int| cut <= j < i ==> s@[j] != c,
        decreases n - i,
    {
        if s.get_char(i) == c {
            cut = i + 1;
        }
        i += 1;
    }
    let suffix = s.substring_char(cut, n);
    proof {
        lemma_after_last_from_cut(s@, c, cut as int);
    }
    suffix.to_owned()
}

/// The position of the first occurrence of `c` in `s`, if any.
pub open spec fn first_index_of(s: Seq<char>, c: char) -> Option<int>
    decreases s.len(),
{
    if s.len() == 0 {
        None
    } else if s[0] == c {
        Some(0int)
    } else {
        match first_index_of(s.drop_first(), c) {
            Some(i) => Some(i + 1),
            None => None,
        }
    }
}

proof fn lemma_first_index_at(s: Seq<char>, c: char, i: int)
    requires
        0 <= i <= s.len(),
        forall|j: int| 0 <= j < i ==> s[j] != c,
        i == s.len() || s[i] == c,
    ensures
        first_index_of(s, c) == if i == s.len() {
            Option::<int>::None
        } else {
            Option::<int>::Some(i)
        },
    decreases s.len(),
{
    if s.len() == 0 {
    } else if i == 0 {
    } else {
        assert(s[0] != c);
        lemma_first_index_at(s.drop_first(), c, i - 1);
    }
}

/// Splitting a token at its first `=`: the name before it and the value
/// after it, or nothing when the token holds no `=` at all.
pub open spec fn spec_split_pair(t: Seq<char>) -> Option<(Seq<char>, Seq<char>)> {
    match first_index_of(t, '=') {
        Some(i) => Some((t.subrange(0, i), t.subrange(i + 1, t.len() as int))),
        None => None,
    }
}

/// Splits a `key=value` token at its first `=`; `None` for a token without
/// one.
pub fn split_pair(token: &str) -> (r: Option<(String, String)>)
    ensures
        r.deep_view() == spec_split_pair(token@),
{
    let n: usize = token.unicode_len();
    let mut i: usize = 0;
    while i < n
        invariant
            i <= n,
            n == token@.len(),
            forall|j: int| 0 <= j < i ==> token@[j] != '=',
        decreases n - i,
    {
        if token.get_char(i) == '=' {
            let name = token.substring_char(0, i);
            let value = token.substring_char(i + 1, n);
            proof {
                lemma_first_index_at(token@, '=', i as int);
            }
            return Some((name.to_owned(), value.to_owned()));
        }
        i += 1;
    }
    proof {
        lemma_first_index_at(token@, '=', n as int);
    }
    None
}

} // verus!
