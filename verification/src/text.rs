//! Text primitives: decimal digit strings and substring search.
//!
//! Everything the orchestrator prints or parses is built from these
//! primitives: decimal renderings of descriptor numbers and sizes, and
//! substring matching against known failure signatures.

use vstd::prelude::*;
use vstd::string::StrSliceExecFns;

verus! {

/// A decimal digit, `'0'` through `'9'`.
pub open spec fn is_dec_digit(c: char) -> bool {
    '0' as int <= c as int && c as int <= '9' as int
}

/// The numeric value of one decimal digit character.
pub open spec fn digit_val(c: char) -> int {
    c as int - '0' as int
}

/// Every character of `s` is a decimal digit.
pub open spec fn all_digits(s: Seq<char>) -> bool {
    forall|i: int| 0 <= i < s.len() ==> is_dec_digit(#[trigger] s[i])
}

/// The numeric value of a digit string, most significant digit first.
pub open spec fn digits_val(s: Seq<char>) -> int
    decreases s.len(),
{
    if s.len() == 0 {
        0
    } else {
        digits_val(s.drop_last()) * 10 + digit_val(s.last())
    }
}

/// The digit character for a value below ten.
pub open spec fn digit_char(d: int) -> char {
    if d == 0 {
        '0'
    } else if d == 1 {
        '1'
    } else if d == 2 {
        '2'
    } else if d == 3 {
        '3'
    } else if d == 4 {
        '4'
    } else if d == 5 {
        '5'
    } else if d == 6 {
        '6'
    } else if d == 7 {
        '7'
    } else if d == 8 {
        '8'
    } else {
        '9'
    }
}

/// The canonical decimal rendering of a natural number, without leading
/// zeros (`0` renders as `"0"`).
pub open spec fn dec_rep(n: nat) -> Seq<char>
    decreases n,
{
    if n < 10 {
        seq![digit_char(n as int)]
    } else {
        dec_rep(n / 10).push(digit_char((n % 10) as int))
    }
}

/// A digit string denotes a non-negative value.
pub proof fn lemma_digits_val_nonneg(s: Seq<char>)
    requires
        all_digits(s),
    ensures
        digits_val(s) >= 0,
    decreases s.len(),
{
    if s.len() > 0 {
        assert(all_digits(s.drop_last()));
        lemma_digits_val_nonneg(s.drop_last());
        assert(is_dec_digit(s.last()));
    }
}

/// The canonical rendering is made of digits and denotes the number it
/// renders.
pub proof fn lemma_dec_rep_val(n: nat)
    ensures
        all_digits(dec_rep(n)),
        dec_rep(n).len() >= 1,
        digits_val(dec_rep(n)) == n,
    decreases n,
{
    if n < 10 {
        let s = dec_rep(n);
        assert(s.drop_last() =~= Seq::<char>::empty());
        assert(is_dec_digit(digit_char(n as int)));
        assert(digit_val(digit_char(n as int)) == n);
        assert(digits_val(s) == digits_val(s.drop_last()) * 10 + digit_val(s.last()));
    } else {
        lemma_dec_rep_val(n / 10);
        let s = dec_rep(n);
        assert(s.drop_last() =~= dec_rep(n / 10));
        assert(is_dec_digit(digit_char((n % 10) as int)));
        assert(digit_val(digit_char((n % 10) as int)) == n % 10);
        assert(digits_val(s) == (n / 10) * 10 + (n % 10));
        assert(forall|i: int|
            0 <= i < s.len() ==> is_dec_digit(#[trigger] s[i]) == if i < s.len() - 1 {
                is_dec_digit(dec_rep(n / 10)[i])
            } else {
                is_dec_digit(s.last())
            });
    }
}

/// The deep view of a vector indexes to the deep views of its elements.
pub proof fn lemma_deep_view_index<T: DeepView>(v: &Vec<T>)
    ensures
        v.deep_view().len() == v@.len(),
        forall|k: int| 0 <= k < v@.len() ==> #[trigger] v.deep_view()[k] == v@[k].deep_view(),
{
}

/// Relies on std's `String::push`: appends the given character to the end
/// of the string.
#[verifier::external_body]
pub fn push_char(s: &mut String, c: char)
    ensures
        final(s)@ == old(s)@.push(c),
{
    s.push(c)
}

/// The digit character of a value below ten, executably.
pub fn digit_to_char(d: u64) -> (c: char)
    requires
        d < 10,
    ensures
        c == digit_char(d as int),
{
    match d {
        0u64 => '0',
        1u64 => '1',
        2u64 => '2',
        3u64 => '3',
        4u64 => '4',
        5u64 => '5',
        6u64 => '6',
        7u64 => '7',
        8u64 => '8',
        _ => '9',
    }
}

/// Renders `n` in decimal.
pub fn u64_to_dec(n: u64) -> (s: String)
    ensures
        s@ == dec_rep(n as nat),
    decreases n,
{
    if n < 10 {
        let mut s = String::new();
        push_char(&mut s, digit_to_char(n));
        proof {
            assert(s@ =~= dec_rep(n as nat));
        }
        s
    } else {
        let mut s = u64_to_dec(n / 10);
        push_char(&mut s, digit_to_char(n % 10));
        proof {
            assert(s@ =~= dec_rep(n as nat));
        }
        s
    }
}

/// Renders a `u32` in decimal.
pub fn u32_to_dec(n: u32) -> (s: String)
    ensures
        s@ == dec_rep(n as nat),
{
    u64_to_dec(n as u64)
}

/// Renders a non-negative `i32` in decimal.
pub fn i32_to_dec(n: i32) -> (s: String)
    requires
        n >= 0,
    ensures
        s@ == dec_rep(n as nat),
{
    u64_to_dec(n as u64)
}

/// `pat` occurs in `s` starting at position `i`.
pub open spec fn has_seq_at(s: Seq<char>, i: int, pat: Seq<char>) -> bool {
    &&& 0 <= i
    &&& i + pat.len() <= s.len()
    &&& s.subrange(i, i + pat.len() as int) == pat
}

/// `pat` occurs somewhere in `s`.
pub open spec fn contains_seq(s: Seq<char>, pat: Seq<char>) -> bool {
    exists|i: int| has_seq_at(s, i, pat)
}

/// `s` ends with `pat`.
pub open spec fn ends_with_seq(s: Seq<char>, pat: Seq<char>) -> bool {
    pat.len() <= s.len() && has_seq_at(s, s.len() - pat.len(), pat)
}

/// Whether `pat` occurs in `s` at position `i`, by character comparison.
pub fn seq_match_at(s: &str, s_len: usize, i: usize, pat: &str, pat_len: usize) -> (b: bool)
    requires
        s_len == s@.len(),
        pat_len == pat@.len(),
    ensures
        b == has_seq_at(s@, i as int, pat@),
{
    if i > s_len {
        return false;
    }
    if pat_len > s_len - i {
        return false;
    }
    let mut j: usize = 0;
    while j < pat_len
        invariant
            s_len == s@.len(),
            pat_len == pat@.len(),
            i + pat_len <= s_len,
            j <= pat_len,
            forall|k: int| 0 <= k < j ==> s@[i + k] == pat@[k],
        decreases pat_len - j,
    {
        if s.get_char(i + j) != pat.get_char(j) {
            proof {
                if has_seq_at(s@, i as int, pat@) {
                    assert(s@.subrange(i as int, i + pat_len as int)[j as int] == s@[i + j]);
                }
            }
            return false;
        }
        j += 1;
    }
    proof {
        assert(s@.subrange(i as int, i + pat_len as int) =~= pat@);
    }
    true
}

/// Whether `pat` occurs anywhere in `s`.
pub fn contains_str(s: &str, pat: &str) -> (b: bool)
    ensures
        b == contains_seq(s@, pat@),
{
    let s_len = s.unicode_len();
    let pat_len = pat.unicode_len();
    if pat_len > s_len {
        return false;
    }
    if pat_len == 0 {
        proof {
            assert(s@.subrange(0, 0) =~= pat@);
            assert(has_seq_at(s@, 0, pat@));
        }
        return true;
    }
    let mut i: usize = 0;
    while i <= s_len - pat_len
        invariant
            s_len == s@.len(),
            pat_len == pat@.len(),
            0 < pat_len <= s_len,
            i <= s_len - pat_len + 1,
            forall|k: int| 0 <= k < i ==> !has_seq_at(s@, k, pat@),
        decreases s_len - pat_len - i + 1,
    {
        if seq_match_at(s, s_len, i, pat, pat_len) {
            return true;
        }
        i += 1;
    }
    proof {
        assert(forall|k: int| has_seq_at(s@, k, pat@) ==> 0 <= k < i);
    }
    false
}

/// `pat` occurs in `s` at `i` and is followed there by a line break or by
/// the end of `s`.
pub open spec fn has_line_at(s: Seq<char>, i: int, pat: Seq<char>) -> bool {
    has_seq_at(s, i, pat) && (i + pat.len() == s.len() || s[i + pat.len() as int] == '\n')
}

/// `pat` occurs in `s` as the tail of a line.
pub open spec fn contains_line(s: Seq<char>, pat: Seq<char>) -> bool {
    exists|i: int| has_line_at(s, i, pat)
}

/// Whether `pat` occurs in `s` at the end of a line.
pub fn contains_line_str(s: &str, pat: &str) -> (b: bool)
    ensures
        b == contains_line(s@, pat@),
{
    let s_len = s.unicode_len();
    let pat_len = pat.unicode_len();
    if pat_len > s_len {
        return false;
    }
    if pat_len == 0 {
        proof {
            assert(s@.subrange(s@.len() as int, s@.len() as int) =~= pat@);
            assert(has_line_at(s@, s@.len() as int, pat@));
        }
        return true;
    }
    let mut i: usize = 0;
    while i <= s_len - pat_len
        invariant
            s_len == s@.len(),
            pat_len == pat@.len(),
            0 < pat_len <= s_len,
            i <= s_len - pat_len + 1,
            forall|k: int| 0 <= k < i ==> !has_line_at(s@, k, pat@),
        decreases s_len - pat_len - i + 1,
    {
        if seq_match_at(s, s_len, i, pat, pat_len) {
            if i + pat_len == s_len {
                proof {
                    assert(has_line_at(s@, i as int, pat@));
                }
                return true;
            }
            if s.get_char(i + pat_len) == '\n' {
                proof {
                    assert(has_line_at(s@, i as int, pat@));
                }
                return true;
            }
        }
        i += 1;
    }
    proof {
        assert(forall|k: int| has_line_at(s@, k, pat@) ==> 0 <= k < i);
    }
    false
}

} // verus!
