//! Verified substring search over character sequences.
//!
//! The daemons report per-operation failures as free-form error strings; the
//! error translation in `errors` matches fixed patterns inside them.  This
//! module provides the one string primitive that translation needs, with an
//! exact specification.

use vstd::prelude::*;
use vstd::string::StrSliceExecFns;

verus! {

/// The pattern `p` occurs in `s` starting at position `k`.
pub open spec fn is_match_at(s: Seq<char>, p: Seq<char>, k: int) -> bool {
    0 <= k && k + p.len() <= s.len() && s.subrange(k, k + p.len()) == p
}

/// The pattern `p` occurs somewhere in `s`.
pub open spec fn contains_seq(s: Seq<char>, p: Seq<char>) -> bool {
    exists|k: int| is_match_at(s, p, k)
}

/// Whether `p` occurs in `s` starting at position `k`.
fn match_at(s: &str, p: &str, k: usize, s_len: usize, p_len: usize) -> (r: bool)
    requires
        s_len == s@.len(),
        p_len == p@.len(),
        k + p_len <= s_len,
    ensures
        r == is_match_at(s@, p@, k as int),
{
    let mut i: usize = 0;
    while i < p_len
        invariant
            s_len == s@.len(),
            p_len == p@.len(),
            k + p_len <= s_len,
            i <= p_len,
            forall|j: int| 0 <= j < i ==> s@[k + j] == p@[j],
        decreases p_len - i,
    {
        if s.get_char(k + i) != p.get_char(i) {
            assert(s@.subrange(k as int, k + p@.len())[i as int] == s@[k + i]);
            return false;
        }
        i = i + 1;
    }
    assert(s@.subrange(k as int, k + p@.len()) =~= p@);
    true
}

/// The decimal digit characters, for spelling numbers out.
pub open spec fn digit_char(d: int) -> char {
    "0123456789"@[d]
}

/// The six-digit zero-padded decimal spelling of a passkey.
pub open spec fn passkey_text(p: int) -> Seq<char> {
    seq![
        digit_char(p / 100000 % 10),
        digit_char(p / 10000 % 10),
        digit_char(p / 1000 % 10),
        digit_char(p / 100 % 10),
        digit_char(p / 10 % 10),
        digit_char(p % 10),
    ]
}

/// Spell a pairing passkey as the six-digit zero-padded code the user sees.
/// The Bluetooth daemon's passkeys range over 0 to 999999.
pub fn format_passkey(p: u32) -> (r: String)
    requires
        p <= 999999,
    ensures
        r@ == passkey_text(p as int),
{
    let digits = "0123456789";
    proof {
        reveal_strlit("0123456789");
    }
    let mut out = String::new();
    append_digit(&mut out, digits, (p / 100000) % 10);
    append_digit(&mut out, digits, (p / 10000) % 10);
    append_digit(&mut out, digits, (p / 1000) % 10);
    append_digit(&mut out, digits, (p / 100) % 10);
    append_digit(&mut out, digits, (p / 10) % 10);
    append_digit(&mut out, digits, p % 10);
    proof {
        assert(out@ =~= passkey_text(p as int));
    }
    out
}

/// Append the single digit `d` to `out`.
fn append_digit(out: &mut String, digits: &str, d: u32)
    requires
        d < 10,
        digits@ == "0123456789"@,
        digits@.len() == 10,
    ensures
        final(out)@ == old(out)@.push(digit_char(d as int)),
{
    let piece = digits.substring_char(d as usize, d as usize + 1);
    out.append(piece);
    proof {
        assert(piece@[0] == digits@[d as int]);
        assert(old(out)@ + piece@ =~= old(out)@.push(digit_char(d as int)));
    }
}

/// Whether two string slices hold the same characters.
pub fn str_eq(a: &str, b: &str) -> (r: bool)
    ensures
        r == (a@ == b@),
{
    let a_len = a.unicode_len();
    let b_len = b.unicode_len();
    if a_len != b_len {
        return false;
    }
    let r = match_at(a, b, 0, a_len, b_len);
    proof {
        assert(a@.subrange(0, a@.len() as int) =~= a@);
    }
    r
}

/// Whether the pattern `p` occurs anywhere in `s`.
pub fn str_contains(s: &str, p: &str) -> (r: bool)
    ensures
        r == contains_seq(s@, p@),
{
    let s_len = s.unicode_len();
    let p_len = p.unicode_len();
    if p_len > s_len {
        return false;
    }
    if p_len == 0 {
        assert(is_match_at(s@, p@, 0)) by {
            assert(s@.subrange(0, 0) =~= p@);
        }
        return true;
    }
    let mut k: usize = 0;
    while k <= s_len - p_len
        invariant
            s_len == s@.len(),
            p_len == p@.len(),
            1 <= p_len <= s_len,
            k <= s_len - p_len + 1,
            forall|j: int| 0 <= j < k ==> !is_match_at(s@, p@, j),
        decreases s_len - p_len - k + 1,
    {
        if match_at(s, p, k, s_len, p_len) {
            return true;
        }
        k = k + 1;
    }
    false
}

} // verus!
