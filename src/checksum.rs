//! The modulo-11 check digit of a NIF.

use vstd::prelude::*;

verus! {

broadcast use vstd::string::is_ascii_spec_bytes;

/// The byte of the ASCII digit zero.
const ZERO: u8 = 48;

/// The byte of the ASCII digit nine.
const NINE: u8 = 57;

/// Number of characters in a NIF.
pub const NIF_LEN: usize = 9;

/// An ASCII decimal digit.
pub open spec fn is_digit_char(c: char) -> bool {
    '0' <= c && c <= '9'
}

/// The value of a decimal digit character.
pub open spec fn digit_value(c: char) -> int {
    c as int - '0' as int
}

/// Exactly nine characters, each an ASCII decimal digit.
pub open spec fn is_nine_digits(s: Seq<char>) -> bool {
    &&& s.len() == 9
    &&& forall|i: int| 0 <= i < s.len() ==> is_digit_char(#[trigger] s[i])
}

/// The first digit is one of 1, 2, 3, 5, 6, 7, 8, 9, or the number starts with "45".
pub open spec fn has_allowed_prefix(s: Seq<char>) -> bool
    recommends
        s.len() >= 2,
{
    let c = s[0];
    ||| c == '1' || c == '2' || c == '3' || c == '5'
    ||| c == '6' || c == '7' || c == '8' || c == '9'
    ||| c == '4' && s[1] == '5'
}

/// Sum of the first `n` digits, the digit at index `i` weighted by `9 - i`.
pub open spec fn weighted_sum(s: Seq<char>, n: nat) -> int
    decreases n,
{
    if n == 0 {
        0
    } else {
        weighted_sum(s, (n - 1) as nat) + digit_value(s[n - 1]) * (10 - n)
    }
}

/// The check digit that the first eight digits call for.
pub open spec fn expected_check_digit(s: Seq<char>) -> int {
    let r = weighted_sum(s, 8) % 11;
    if r == 0 || r == 1 {
        0
    } else {
        11 - r
    }
}

/// A well-formed NIF whose last digit is its check digit.
pub open spec fn is_valid_nif(s: Seq<char>) -> bool {
    &&& is_nine_digits(s)
    &&& has_allowed_prefix(s)
    &&& expected_check_digit(s) == digit_value(s[8])
}

/// Validation depends on the characters of the number alone: two strings with
/// the same characters are both valid or both invalid, so repeating a check
/// gives the same answer.
pub proof fn validation_is_deterministic(a: &str, b: &str)
    requires
        a@ == b@,
    ensures
        is_valid_nif(a@) == is_valid_nif(b@),
{
}

/// Validates a NIF by its check digit alone, without any lookup.
pub fn is_nif_valid_local(nif: &str) -> (r: bool)
    ensures
        r == is_valid_nif(nif@),
        !is_nine_digits(nif@) ==> !r,
{
    if !nif.is_ascii() {
        proof {
            if is_nine_digits(nif@) {
                assert(vstd::utf8::is_ascii_chars(nif@));
            }
        }
        return false;
    }
    // An ASCII string has one byte per character, equal to its code.
    let bytes = nif.as_bytes();
    assert(bytes@ =~= Seq::new(nif@.len(), |i| nif@.index(i) as u8));
    if bytes.len() != NIF_LEN {
        return false;
    }
    proof {
        assert forall|j: int| 0 <= j < 9 implies (#[trigger] bytes@[j]) as int == nif@[j] as int by {
            assert('\0' <= nif@[j] <= '\u{7f}');
        }
    }
    let mut i: usize = 0;
    while i < NIF_LEN
        invariant
            bytes@.len() == 9,
            nif@.len() == 9,
            forall|j: int| 0 <= j < 9 ==> (#[trigger] bytes@[j]) as int == nif@[j] as int,
            0 <= i <= 9,
            forall|j: int| 0 <= j < i ==> is_digit_char(#[trigger] nif@[j]),
        decreases 9 - i,
    {
        if bytes[i] < ZERO || bytes[i] > NINE {
            assert(!is_digit_char(nif@[i as int]));
            return false;
        }
        i += 1;
    }
    let first = bytes[0] - ZERO;
    let second = bytes[1] - ZERO;
    let allowed = (first != 0 && first != 4) || (first == 4 && second == 5);
    if !allowed {
        return false;
    }
    let mut sum: u32 = 0;
    let mut k: usize = 0;
    while k < 8
        invariant
            bytes@.len() == 9,
            nif@.len() == 9,
            forall|j: int| 0 <= j < 9 ==> (#[trigger] bytes@[j]) as int == nif@[j] as int,
            is_nine_digits(nif@),
            0 <= k <= 8,
            sum as int == weighted_sum(nif@, k as nat),
            sum <= 81 * k,
        decreases 8 - k,
    {
        assert(is_digit_char(nif@[k as int]));
        let d = (bytes[k] - ZERO) as u32;
        let w = 9 - k as u32;
        assert(d * w <= 81) by (nonlinear_arith)
            requires
                d <= 9,
                w <= 9,
        ;
        sum = sum + d * w;
        k += 1;
    }
    let rest = sum % 11;
    let check = if rest == 0 || rest == 1 {
        0
    } else {
        11 - rest
    };
    assert(is_digit_char(nif@[8]));
    check == (bytes[8] - ZERO) as u32
}

} // verus!
