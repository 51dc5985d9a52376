//! Small verified string helpers: equality, ASCII case folding, and
//! reading a short decimal number the way the standard parser does.

use vstd::prelude::*;

verus! {

/// ASCII lower-casing of one character; everything else is untouched.
pub open spec fn lower_char_spec(c: char) -> char {
    if 'A' <= c && c <= 'Z' {
        ((c as int) + 32) as char
    } else {
        c
    }
}

/// A string folded to ASCII lower case, character by character.
pub open spec fn lower_spec(s: Seq<char>) -> Seq<char> {
    Seq::new(s.len(), |i: int| lower_char_spec(s[i]))
}

pub fn lower_char(c: char) -> (r: char)
    ensures
        r == lower_char_spec(c),
{
    if c >= 'A' && c <= 'Z' {
        ((c as u8) + 32) as char
    } else {
        c
    }
}

/// Character-for-character string equality.
pub fn str_eq(a: &str, b: &str) -> (r: bool)
    ensures
        r == (a@ == b@),
{
    let n = a.unicode_len();
    if n != b.unicode_len() {
        return false;
    }
    let mut i: usize = 0;
    while i < n
        invariant
            n == a@.len(),
            n == b@.len(),
            i <= n,
            forall|j: int| 0 <= j < i ==> a@[j] == b@[j],
        decreases n - i,
    {
        if a.get_char(i) != b.get_char(i) {
            return false;
        }
        i += 1;
    }
    proof {
        assert(a@ =~= b@);
    }
    true
}

/// Whether `s`, folded to ASCII lower case, equals `lit`.
pub fn eq_ignore_ascii_case(s: &str, lit: &str) -> (r: bool)
    ensures
        r == (lower_spec(s@) == lit@),
{
    let n = s.unicode_len();
    if n != lit.unicode_len() {
        return false;
    }
    let mut i: usize = 0;
    while i < n
        invariant
            n == s@.len(),
            n == lit@.len(),
            i <= n,
            forall|j: int| 0 <= j < i ==> lower_char_spec(s@[j]) == lit@[j],
        decreases n - i,
    {
        if lower_char(s.get_char(i)) != lit.get_char(i) {
            return false;
        }
        i += 1;
    }
    proof {
        assert(lower_spec(s@) =~= lit@);
    }
    true
}

/// Relies on `String::push`: appends exactly the one character given.
#[verifier::external_body]
pub fn push_char(s: &mut String, c: char)
    ensures
        final(s)@ == old(s)@.push(c),
{
    s.push(c)
}

/// The character of one decimal digit.
pub open spec fn digit_char(d: int) -> char {
    (48 + d) as char
}

/// The decimal rendering of `n`, one to three digits without leading zeros.
pub open spec fn digits_spec(n: int) -> Seq<char> {
    if n < 10 {
        seq![digit_char(n)]
    } else if n < 100 {
        seq![digit_char(n / 10), digit_char(n % 10)]
    } else {
        seq![digit_char(n / 100), digit_char((n / 10) % 10), digit_char(n % 10)]
    }
}

/// Appends the decimal rendering of `n`.
pub fn push_digits(s: &mut String, n: u8)
    ensures
        final(s)@ == old(s)@ + digits_spec(n as int),
{
    if n < 10 {
        push_char(s, (48 + n) as char);
        proof {
            assert(s@ =~= old(s)@ + digits_spec(n as int));
        }
    } else if n < 100 {
        push_char(s, (48 + n / 10) as char);
        push_char(s, (48 + n % 10) as char);
        proof {
            assert(s@ =~= old(s)@ + digits_spec(n as int));
        }
    } else {
        push_char(s, (48 + n / 100) as char);
        push_char(s, (48 + (n / 10) % 10) as char);
        push_char(s, (48 + n % 10) as char);
        proof {
            assert(s@ =~= old(s)@ + digits_spec(n as int));
        }
    }
}

pub open spec fn is_digit(c: char) -> bool {
    '0' <= c && c <= '9'
}

pub open spec fn digit_val(c: char) -> int {
    (c as int) - 48
}

/// What `u8::from_str` makes of a token of at most two characters: an
/// optional leading `+`, then one or two decimal digits.
pub open spec fn parse_short_u8_spec(s: Seq<char>) -> Option<u8> {
    let d = if s.len() > 0 && s[0] == '+' {
        s.skip(1)
    } else {
        s
    };
    if d.len() == 1 && is_digit(d[0]) {
        Some(digit_val(d[0]) as u8)
    } else if d.len() == 2 && is_digit(d[0]) && is_digit(d[1]) {
        Some((digit_val(d[0]) * 10 + digit_val(d[1])) as u8)
    } else {
        None
    }
}

fn digit_of(c: char) -> (r: Option<u8>)
    ensures
        r is Some <==> is_digit(c),
        r is Some ==> r->0 == digit_val(c),
{
    if c >= '0' && c <= '9' {
        Some((c as u8) - 48)
    } else {
        None
    }
}

/// Reads a one- or two-character decimal token as `u8::from_str` would.
pub fn parse_short_u8(s: &str) -> (r: Option<u8>)
    requires
        1 <= s@.len() <= 2,
    ensures
        r == parse_short_u8_spec(s@),
{
    let n = s.unicode_len();
    let c0 = s.get_char(0);
    if c0 == '+' {
        if n == 2 {
            let c1 = s.get_char(1);
            proof {
                assert(s@.skip(1) =~= seq![s@[1]]);
            }
            match digit_of(c1) {
                Some(d) => Some(d),
                None => None,
            }
        } else {
            proof {
                assert(s@.skip(1) =~= Seq::<char>::empty());
            }
            None
        }
    } else {
        if n == 1 {
            match digit_of(c0) {
                Some(d) => Some(d),
                None => None,
            }
        } else {
            let c1 = s.get_char(1);
            match (digit_of(c0), digit_of(c1)) {
                (Some(d0), Some(d1)) => Some(d0 * 10 + d1),
                _ => None,
            }
        }
    }
}

} // verus!
