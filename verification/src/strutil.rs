//! Small string helpers: ASCII lowercasing, case-insensitive comparison and
//! decimal rendering, built on one trusted call into `String::push`.

use vstd::prelude::*;
use vstd::string::*;

verus! {

/// Relies on `String::push`: appends the given character to the end of the
/// string and changes nothing else.
#[verifier::external_body]
pub(crate) fn push_char(s: &mut String, c: char)
    ensures
        final(s)@ == old(s)@.push(c),
{
    s.push(c);
}

/// A character with an ASCII upper-case letter folded to its lower-case
/// counterpart; anything else is left alone.
pub open spec fn lower_char(c: char) -> char {
    if 'A' <= c && c <= 'Z' {
        (((c as u32) + 32) as u8) as char
    } else {
        c
    }
}

/// A character sequence folded to ASCII lower case.
pub open spec fn lower_seq(s: Seq<char>) -> Seq<char> {
    s.map_values(|c: char| lower_char(c))
}

/// Folding to lower case settles: a second fold changes nothing.
pub proof fn lemma_lower_idempotent(s: Seq<char>)
    ensures
        lower_seq(lower_seq(s)) == lower_seq(s),
{
    assert forall|i: int| 0 <= i < s.len() implies lower_seq(lower_seq(s))[i] == lower_seq(s)[i] by {
        assert(lower_char(lower_char(s[i])) == lower_char(s[i]));
    }
    assert(lower_seq(lower_seq(s)) =~= lower_seq(s));
}

/// Fold one character to ASCII lower case.
pub fn to_lower_char(c: char) -> (r: char)
    ensures
        r == lower_char(c),
{
    if 'A' <= c && c <= 'Z' {
        (((c as u32) + 32) as u8) as char
    } else {
        c
    }
}

/// Fold a string to ASCII lower case.
pub fn to_lowercase(s: &str) -> (r: String)
    ensures
        r@ == lower_seq(s@),
{
    let len = s.unicode_len();
    let mut out = String::new();
    let mut i: usize = 0;
    while i < len
        invariant
            len == s@.len(),
            i <= len,
            out@ == lower_seq(s@).take(i as int),
        decreases len - i,
    {
        let c = s.get_char(i);
        push_char(&mut out, to_lower_char(c));
        proof {
            assert(out@ =~= lower_seq(s@).take(i + 1 as int));
        }
        i = i + 1;
    }
    proof {
        assert(out@ =~= lower_seq(s@));
    }
    out
}

/// Do two strings hold the same characters?
pub fn str_eq(a: &str, b: &str) -> (r: bool)
    ensures
        r == (a@ == b@),
{
    let len = a.unicode_len();
    if len != b.unicode_len() {
        return false;
    }
    let mut i: usize = 0;
    while i < len
        invariant
            len == a@.len() == b@.len(),
            i <= len,
            a@.take(i as int) == b@.take(i as int),
        decreases len - i,
    {
        if a.get_char(i) != b.get_char(i) {
            proof {
                assert(a@[i as int] != b@[i as int]);
            }
            return false;
        }
        proof {
            assert(a@.take(i + 1 as int) =~= a@.take(i as int).push(a@[i as int]));
            assert(b@.take(i + 1 as int) =~= b@.take(i as int).push(b@[i as int]));
        }
        i = i + 1;
    }
    proof {
        assert(a@ =~= a@.take(len as int));
        assert(b@ =~= b@.take(len as int));
    }
    true
}

/// Does `a`, folded to ASCII lower case, spell exactly `b`?
pub fn eq_lower(a: &str, b: &str) -> (r: bool)
    ensures
        r == (lower_seq(a@) == b@),
{
    let len = a.unicode_len();
    if len != b.unicode_len() {
        proof {
            assert(lower_seq(a@).len() == a@.len());
        }
        return false;
    }
    let mut i: usize = 0;
    while i < len
        invariant
            len == a@.len() == b@.len(),
            i <= len,
            lower_seq(a@).take(i as int) == b@.take(i as int),
        decreases len - i,
    {
        if to_lower_char(a.get_char(i)) != b.get_char(i) {
            proof {
                assert(lower_seq(a@)[i as int] != b@[i as int]);
            }
            return false;
        }
        proof {
            assert(lower_seq(a@).take(i + 1 as int) =~= lower_seq(a@).take(i as int).push(
                lower_seq(a@)[i as int],
            ));
            assert(b@.take(i + 1 as int) =~= b@.take(i as int).push(b@[i as int]));
        }
        i = i + 1;
    }
    proof {
        assert(lower_seq(a@) =~= lower_seq(a@).take(len as int));
        assert(b@ =~= b@.take(len as int));
    }
    true
}

/// The digit character for a value below ten.
pub open spec fn digit_char(d: int) -> char {
    ((48 + d) as u8) as char
}

/// The decimal spelling of a number, most significant digit first, with no
/// leading zero except for the number zero itself.
pub open spec fn dec_rep(n: nat) -> Seq<char>
    decreases n,
{
    if n < 10 {
        seq![digit_char(n as int)]
    } else {
        dec_rep(n / 10).push(digit_char((n % 10) as int))
    }
}

/// The decimal spelling of a number, left-padded with a zero to at least two
/// digits.
pub open spec fn pad2(n: nat) -> Seq<char> {
    if n < 10 {
        "0"@ + dec_rep(n)
    } else {
        dec_rep(n)
    }
}

fn digit_to_char(d: u64) -> (r: char)
    requires
        d < 10,
    ensures
        r == digit_char(d as int),
{
    ((48 + d as u32) as u8) as char
}

/// Spell a number in decimal.
pub fn u64_to_dec(n: u64) -> (r: String)
    ensures
        r@ == dec_rep(n as nat),
    decreases n,
{
    if n < 10 {
        let mut out = String::new();
        push_char(&mut out, digit_to_char(n));
        proof {
            assert(out@ =~= dec_rep(n as nat));
        }
        out
    } else {
        let mut out = u64_to_dec(n / 10);
        push_char(&mut out, digit_to_char(n % 10));
        out
    }
}

/// Spell a number in decimal, zero-padded to at least two digits.
pub fn u64_to_dec2(n: u64) -> (r: String)
    ensures
        r@ == pad2(n as nat),
{
    if n < 10 {
        let mut out = String::from_str("0");
        let digits = u64_to_dec(n);
        out.append(digits.as_str());
        out
    } else {
        u64_to_dec(n)
    }
}

} // verus!
