//! The jobserver handshake grammar.
//!
//! The outer build coordinator publishes its jobserver pipe through an
//! environment value of the exact anchored form
//! `-j --jobserver-fds=R,W --jobserver-auth=R,W`, where `R` and `W` are
//! non-negative decimal numbers and the `-fds` pair must be byte-identical
//! to the `-auth` pair. [`parse_makeflags`] recognizes exactly that
//! language; [`makeflags_string`] rebuilds the handshake for a descriptor
//! pair so it can be handed to a process inside the container.

use vstd::prelude::*;
use vstd::string::{StrSliceExecFns, StringExecFns};

use crate::error::{Error, FdHalf};
use crate::text::{
    all_digits, dec_rep, digit_val, digits_val, has_seq_at, i32_to_dec, is_dec_digit,
    lemma_dec_rep_val, lemma_digits_val_nonneg,
};

verus! {

/// The literal that precedes the first descriptor pair.
pub open spec fn fds_prefix() -> Seq<char> {
    "-j --jobserver-fds="@
}

/// The literal that separates the two descriptor pairs.
pub open spec fn auth_sep() -> Seq<char> {
    " --jobserver-auth="@
}

/// The serialized handshake for digit strings `dr` and `dw`, used
/// identically for the `fds` and the `auth` half.
pub open spec fn spec_handshake(dr: Seq<char>, dw: Seq<char>) -> Seq<char> {
    fds_prefix() + dr + seq![','] + dw + auth_sep() + dr + seq![','] + dw
}

/// The first position at or after `i` that does not hold a decimal digit.
pub open spec fn digits_end(s: Seq<char>, i: int) -> int
    decreases s.len() - i when 0 <= i <= s.len()
{
    if i < s.len() && is_dec_digit(s[i]) {
        digits_end(s, i + 1)
    } else {
        i
    }
}

/// `digits_end` bounds, and the scanned span is all digits.
pub proof fn lemma_digits_end(s: Seq<char>, i: int)
    requires
        0 <= i <= s.len(),
    ensures
        i <= digits_end(s, i) <= s.len(),
        all_digits(s.subrange(i, digits_end(s, i))),
        digits_end(s, i) < s.len() ==> !is_dec_digit(s[digits_end(s, i)]),
    decreases s.len() - i,
{
    if i < s.len() && is_dec_digit(s[i]) {
        lemma_digits_end(s, i + 1);
        let e = digits_end(s, i);
        assert(forall|k: int|
            0 <= k < e - i ==> #[trigger] s.subrange(i, e)[k] == if k == 0 {
                s[i]
            } else {
                s.subrange(i + 1, e)[k - 1]
            });
    }
}

/// The parse of a handshake string: the descriptor pair on exact matches,
/// and the error that each malformed input earns.
pub open spec fn spec_parse_makeflags(s: Seq<char>) -> Result<(i32, i32), Error> {
    let d1s = fds_prefix().len() as int;
    let d1e = digits_end(s, d1s);
    let d2s = d1e + 1;
    let d2e = digits_end(s, d2s);
    let d3s = d2e + auth_sep().len() as int;
    let d3e = digits_end(s, d3s);
    let d4s = d3e + 1;
    let d4e = digits_end(s, d4s);
    if !(has_seq_at(s, 0, fds_prefix()) && d1e > d1s && d1e < s.len() && s[d1e] == ','
        && d2e > d2s && has_seq_at(s, d2e, auth_sep()) && d3e > d3s && d3e < s.len()
        && s[d3e] == ',' && d4e > d4s && d4e == s.len()) {
        Err(Error::HandshakeMatch)
    } else {
        let dr = s.subrange(d1s, d1e);
        let dw = s.subrange(d2s, d2e);
        let dar = s.subrange(d3s, d3e);
        let daw = s.subrange(d4s, d4e);
        if dr != dar {
            Err(Error::FileDescriptorMismatch { what: FdHalf::Read })
        } else if dw != daw {
            Err(Error::FileDescriptorMismatch { what: FdHalf::Write })
        } else if digits_val(dr) > i32::MAX {
            Err(Error::FileDescriptorParse)
        } else if digits_val(dw) > i32::MAX {
            Err(Error::FileDescriptorParse)
        } else {
            Ok((digits_val(dr) as i32, digits_val(dw) as i32))
        }
    }
}

/// Whether `c` is a decimal digit, executably.
fn is_digit_char(c: char) -> (b: bool)
    ensures
        b == is_dec_digit(c),
{
    let u = c as u32;
    48 <= u && u <= 57
}

/// Scans the maximal digit run starting at `i`.
fn scan_digits(s: &str, s_len: usize, i: usize) -> (e: usize)
    requires
        s_len == s@.len(),
        i <= s_len,
    ensures
        e == digits_end(s@, i as int),
        i <= e <= s_len,
    decreases s_len - i,
{
    let mut j: usize = i;
    while j < s_len && is_digit_char(s.get_char(j))
        invariant
            s_len == s@.len(),
            i <= j <= s_len,
            digits_end(s@, i as int) == digits_end(s@, j as int),
        decreases s_len - j,
    {
        proof {
            assert(digits_end(s@, j as int) == digits_end(s@, j + 1 as int));
        }
        j += 1;
    }
    proof {
        assert(digits_end(s@, j as int) == j as int);
    }
    j
}

/// Whether the spans `[a, b)` and `[c, d)` of `s` hold the same characters.
fn ranges_equal(s: &str, a: usize, b: usize, c: usize, d: usize) -> (eq: bool)
    requires
        a <= b <= s@.len(),
        c <= d <= s@.len(),
    ensures
        eq == (s@.subrange(a as int, b as int) == s@.subrange(c as int, d as int)),
{
    let ghost left = s@.subrange(a as int, b as int);
    let ghost right = s@.subrange(c as int, d as int);
    if b - a != d - c {
        proof {
            assert(left.len() != right.len());
        }
        return false;
    }
    let n = b - a;
    let mut j: usize = 0;
    while j < n
        invariant
            a <= b <= s@.len(),
            c <= d <= s@.len(),
            n == b - a == d - c,
            j <= n,
            left == s@.subrange(a as int, b as int),
            right == s@.subrange(c as int, d as int),
            forall|k: int| 0 <= k < j ==> left[k] == right[k],
        decreases n - j,
    {
        if s.get_char(a + j) != s.get_char(c + j) {
            proof {
                assert(left[j as int] == s@[a + j]);
                assert(right[j as int] == s@[c + j]);
            }
            return false;
        }
        proof {
            assert(left[j as int] == s@[a + j]);
            assert(right[j as int] == s@[c + j]);
        }
        j += 1;
    }
    proof {
        assert(left =~= right);
    }
    true
}

/// Reads the value of the digit span `[a, b)` of `s`, refusing values that
/// do not fit a 32-bit signed integer.
fn digits_to_i32(s: &str, a: usize, b: usize) -> (r: Option<i32>)
    requires
        a < b <= s@.len(),
        all_digits(s@.subrange(a as int, b as int)),
    ensures
        match r {
            Some(v) => v == digits_val(s@.subrange(a as int, b as int)) && v >= 0,
            None => digits_val(s@.subrange(a as int, b as int)) > i32::MAX,
        },
{
    let mut val: u64 = 0;
    let mut over: bool = false;
    let mut j: usize = a;
    proof {
        assert(s@.subrange(a as int, a as int) =~= Seq::<char>::empty());
    }
    while j < b
        invariant
            a <= j <= b <= s@.len(),
            all_digits(s@.subrange(a as int, b as int)),
            !over ==> val == digits_val(s@.subrange(a as int, j as int)) && val <= i32::MAX,
            over ==> digits_val(s@.subrange(a as int, j as int)) > i32::MAX,
        decreases b - j,
    {
        let c = s.get_char(j);
        proof {
            assert(s@.subrange(a as int, b as int)[j - a] == s@[j as int]);
            assert(is_dec_digit(c));
            assert(s@.subrange(a as int, j + 1 as int).drop_last() =~= s@.subrange(
                a as int,
                j as int,
            ));
            assert(s@.subrange(a as int, j + 1 as int).last() == c);
        }
        let dv = (c as u32) - 48;
        proof {
            assert(dv == digit_val(c));
        }
        if !over {
            let nv = val * 10 + dv as u64;
            if nv > 0x7fff_ffff {
                over = true;
                proof {
                    assert(digits_val(s@.subrange(a as int, j + 1 as int)) == val * 10 + dv);
                }
            } else {
                val = nv;
            }
        } else {
            proof {
                let prev = digits_val(s@.subrange(a as int, j as int));
                assert(digits_val(s@.subrange(a as int, j + 1 as int)) == prev * 10 + dv);
                assert(prev * 10 + dv > i32::MAX);
            }
        }
        j += 1;
    }
    if over {
        None
    } else {
        Some(val as i32)
    }
}

/// Parses the jobserver handshake from the outer coordinator.
///
/// Accepts exactly the anchored form `-j --jobserver-fds=R,W
/// --jobserver-auth=R,W`; the `-fds` pair must be byte-identical to the
/// `-auth` pair and each number must fit a 32-bit signed integer.
pub fn parse_makeflags(input: &str) -> (r: Result<(i32, i32), Error>)
    ensures
        r == spec_parse_makeflags(input@),
{
    let s_len = input.unicode_len();
    let p1 = "-j --jobserver-fds=";
    let p2 = " --jobserver-auth=";
    let p1_len = p1.unicode_len();
    let p2_len = p2.unicode_len();
    if !crate::text::seq_match_at(input, s_len, 0, p1, p1_len) {
        return Err(Error::HandshakeMatch);
    }
    let d1s = p1_len;
    let d1e = scan_digits(input, s_len, d1s);
    if d1e == d1s {
        return Err(Error::HandshakeMatch);
    }
    if d1e == s_len {
        return Err(Error::HandshakeMatch);
    }
    if input.get_char(d1e) != ',' {
        return Err(Error::HandshakeMatch);
    }
    let d2s = d1e + 1;
    let d2e = scan_digits(input, s_len, d2s);
    if d2e == d2s {
        return Err(Error::HandshakeMatch);
    }
    if !crate::text::seq_match_at(input, s_len, d2e, p2, p2_len) {
        return Err(Error::HandshakeMatch);
    }
    let d3s = d2e + p2_len;
    let d3e = scan_digits(input, s_len, d3s);
    if d3e == d3s {
        return Err(Error::HandshakeMatch);
    }
    if d3e == s_len {
        return Err(Error::HandshakeMatch);
    }
    if input.get_char(d3e) != ',' {
        return Err(Error::HandshakeMatch);
    }
    let d4s = d3e + 1;
    let d4e = scan_digits(input, s_len, d4s);
    if d4e == d4s {
        return Err(Error::HandshakeMatch);
    }
    if d4e != s_len {
        return Err(Error::HandshakeMatch);
    }
    if !ranges_equal(input, d1s, d1e, d3s, d3e) {
        return Err(Error::FileDescriptorMismatch { what: FdHalf::Read });
    }
    if !ranges_equal(input, d2s, d2e, d4s, d4e) {
        return Err(Error::FileDescriptorMismatch { what: FdHalf::Write });
    }
    proof {
        lemma_digits_end(input@, d1s as int);
        lemma_digits_end(input@, d2s as int);
    }
    let read_fd = match digits_to_i32(input, d1s, d1e) {
        Some(v) => v,
        None => {
            return Err(Error::FileDescriptorParse);
        },
    };
    let write_fd = match digits_to_i32(input, d2s, d2e) {
        Some(v) => v,
        None => {
            return Err(Error::FileDescriptorParse);
        },
    };
    proof {
        lemma_digits_val_nonneg(input@.subrange(d1s as int, d1e as int));
        lemma_digits_val_nonneg(input@.subrange(d2s as int, d2e as int));
    }
    Ok((read_fd, write_fd))
}

/// Rebuilds the handshake string for a received descriptor pair, with the
/// `fds` and `auth` halves identical by construction.
pub fn makeflags_string(read_fd: i32, write_fd: i32) -> (s: String)
    requires
        read_fd >= 0,
        write_fd >= 0,
    ensures
        s@ == spec_handshake(dec_rep(read_fd as nat), dec_rep(write_fd as nat)),
{
    let r = i32_to_dec(read_fd);
    let w = i32_to_dec(write_fd);
    let mut s = String::from_str("-j --jobserver-fds=");
    s.append(r.as_str());
    s.append(",");
    s.append(w.as_str());
    s.append(" --jobserver-auth=");
    s.append(r.as_str());
    s.append(",");
    s.append(w.as_str());
    proof {
        reveal_strlit(",");
        assert(","@ =~= seq![',']);
        assert(s@ =~= spec_handshake(dec_rep(read_fd as nat), dec_rep(write_fd as nat)));
    }
    s
}

/// A span of digits bounded by a non-digit (or the end) is exactly what
/// `digits_end` scans.
proof fn lemma_digits_end_exact(s: Seq<char>, i: int, j: int)
    requires
        0 <= i <= j <= s.len(),
        all_digits(s.subrange(i, j)),
        j < s.len() ==> !is_dec_digit(s[j]),
    ensures
        digits_end(s, i) == j,
    decreases j - i,
{
    if i < j {
        assert(is_dec_digit(s[i])) by {
            assert(s.subrange(i, j)[0] == s[i]);
        }
        assert(all_digits(s.subrange(i + 1, j))) by {
            assert(forall|k: int|
                0 <= k < j - i - 1 ==> #[trigger] s.subrange(i + 1, j)[k] == s.subrange(i, j)[k
                    + 1]);
        }
        lemma_digits_end_exact(s, i + 1, j);
    }
}

/// Law: the handshake built for any representable descriptor pair is
/// accepted by the parser, which returns exactly that pair. The
/// in-container launcher and the outer parser therefore agree.
pub proof fn lemma_handshake_round_trip(read_fd: i32, write_fd: i32)
    requires
        read_fd >= 0,
        write_fd >= 0,
    ensures
        spec_parse_makeflags(spec_handshake(dec_rep(read_fd as nat), dec_rep(write_fd as nat)))
            == Ok::<(i32, i32), Error>((read_fd, write_fd)),
{
    lemma_dec_rep_val(read_fd as nat);
    lemma_dec_rep_val(write_fd as nat);
    lemma_handshake_parses(dec_rep(read_fd as nat), dec_rep(write_fd as nat));
}

/// The parser accepts the serialization of any digit-string pair whose
/// values fit, and returns those values.
proof fn lemma_handshake_parses(dr: Seq<char>, dw: Seq<char>)
    requires
        all_digits(dr),
        dr.len() > 0,
        digits_val(dr) <= i32::MAX,
        all_digits(dw),
        dw.len() > 0,
        digits_val(dw) <= i32::MAX,
    ensures
        spec_parse_makeflags(spec_handshake(dr, dw)) == Ok::<(i32, i32), Error>(
            (digits_val(dr) as i32, digits_val(dw) as i32),
        ),
{
    reveal_strlit("-j --jobserver-fds=");
    reveal_strlit(" --jobserver-auth=");
    let s = spec_handshake(dr, dw);
    let p = fds_prefix().len() as int;
    let a = auth_sep().len() as int;
    let d1s = p;
    let d1e = d1s + dr.len() as int;
    let d2s = d1e + 1;
    let d2e = d2s + dw.len() as int;
    let d3s = d2e + a;
    let d3e = d3s + dr.len() as int;
    let d4s = d3e + 1;
    let d4e = d4s + dw.len() as int;
    assert(s.len() == d4e);
    assert(s.subrange(0, p) =~= fds_prefix());
    assert(s.subrange(d1s, d1e) =~= dr);
    assert(s[d1e] == ',');
    assert(s.subrange(d2s, d2e) =~= dw);
    assert(s.subrange(d2e, d2e + a) =~= auth_sep());
    assert(s[d2e] == auth_sep()[0]);
    assert(s.subrange(d3s, d3e) =~= dr);
    assert(s[d3e] == ',');
    assert(s.subrange(d4s, d4e) =~= dw);
    assert(!is_dec_digit(','));
    assert(auth_sep()[0] == ' ' && !is_dec_digit(' '));
    lemma_digits_end_exact(s, d1s, d1e);
    lemma_digits_end_exact(s, d2s, d2e);
    lemma_digits_end_exact(s, d3s, d3e);
    lemma_digits_end_exact(s, d4s, d4e);
    lemma_digits_val_nonneg(dr);
    lemma_digits_val_nonneg(dw);
    assert(has_seq_at(s, 0, fds_prefix()));
    assert(has_seq_at(s, d2e, auth_sep()));
}

/// Law: every handshake string the parser accepts is the serialization of
/// one digit-string pair used identically for the `fds` and the `auth`
/// half, and the returned descriptors are its non-negative values.
pub proof fn lemma_accepted_handshake(s: Seq<char>, read_fd: i32, write_fd: i32)
    requires
        spec_parse_makeflags(s) == Ok::<(i32, i32), Error>((read_fd, write_fd)),
    ensures
        exists|dr: Seq<char>, dw: Seq<char>|
            {
                &&& s == #[trigger] spec_handshake(dr, dw)
                &&& all_digits(dr) && dr.len() > 0
                &&& all_digits(dw) && dw.len() > 0
                &&& digits_val(dr) == read_fd && read_fd >= 0
                &&& digits_val(dw) == write_fd && write_fd >= 0
            },
{
    let d1s = fds_prefix().len() as int;
    let d1e = digits_end(s, d1s);
    let d2s = d1e + 1;
    let d2e = digits_end(s, d2s);
    let d3s = d2e + auth_sep().len() as int;
    let d3e = digits_end(s, d3s);
    let d4s = d3e + 1;
    let d4e = digits_end(s, d4s);
    let dr = s.subrange(d1s, d1e);
    let dw = s.subrange(d2s, d2e);
    lemma_digits_end(s, d1s);
    lemma_digits_end(s, d2s);
    lemma_digits_val_nonneg(dr);
    lemma_digits_val_nonneg(dw);
    assert(s.subrange(d3s, d3e) == dr && s.subrange(d4s, d4e) == dw);
    assert(s =~= spec_handshake(dr, dw));
    assert(spec_handshake(dr, dw) == s && all_digits(dr) && dr.len() > 0 && all_digits(dw)
        && dw.len() > 0 && digits_val(dr) == read_fd && read_fd >= 0 && digits_val(dw) == write_fd
        && write_fd >= 0);
}

} // verus!
