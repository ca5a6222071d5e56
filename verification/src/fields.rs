//! Rules on the text fields of outbound requests.

use vstd::prelude::*;
use vstd::string::*;
use vstd::utf8::*;

verus! {

/// Whether `s` can be carried as a NUL-terminated ASCII field that takes at
/// most `max_octets` octets on the wire, the terminator included.
pub open spec fn is_c_octet_string(s: Seq<char>, max_octets: nat) -> bool {
    &&& is_ascii_chars(s)
    &&& s.len() < max_octets
    &&& forall|i: int| 0 <= i < s.len() ==> #[trigger] s[i] != '\0'
}

/// Whether `c` is one of `0` to `9`.
pub open spec fn is_ascii_digit(c: char) -> bool {
    '0' <= c <= '9'
}

/// Whether every character of `s` is an ASCII digit. Holds of the empty
/// sequence.
pub open spec fn all_ascii_digits(s: Seq<char>) -> bool {
    forall|i: int| 0 <= i < s.len() ==> is_ascii_digit(#[trigger] s[i])
}

/// Tests [`is_c_octet_string`] on a string.
pub fn fits_c_octet_string(s: &str, max_octets: usize) -> (ok: bool)
    ensures
        ok == is_c_octet_string(s@, max_octets as nat),
{
    if !s.is_ascii() {
        return false;
    }
    let bytes = s.as_bytes();
    proof {
        is_ascii_spec_bytes(s);
    }
    if bytes.len() >= max_octets {
        return false;
    }
    let mut i: usize = 0;
    while i < bytes.len()
        invariant
            i <= bytes.len(),
            bytes@.len() == s@.len(),
            is_ascii_chars(s@),
            forall|j: int| 0 <= j < s@.len() ==> bytes@[j] == (#[trigger] s@[j]) as u8,
            forall|j: int| 0 <= j < i ==> #[trigger] s@[j] != '\0',
        decreases bytes.len() - i,
    {
        if bytes[i] == 0 {
            assert(s@[i as int] == '\0');
            return false;
        }
        i += 1;
    }
    true
}

/// Tests [`all_ascii_digits`] on a string.
pub fn is_numeric(s: &str) -> (numeric: bool)
    ensures
        numeric == all_ascii_digits(s@),
{
    if !s.is_ascii() {
        return false;
    }
    let bytes = s.as_bytes();
    proof {
        is_ascii_spec_bytes(s);
    }
    let mut i: usize = 0;
    while i < bytes.len()
        invariant
            i <= bytes.len(),
            bytes@.len() == s@.len(),
            is_ascii_chars(s@),
            forall|j: int| 0 <= j < s@.len() ==> bytes@[j] == (#[trigger] s@[j]) as u8,
            forall|j: int| 0 <= j < i ==> is_ascii_digit(#[trigger] s@[j]),
        decreases bytes.len() - i,
    {
        if bytes[i] < 48 || bytes[i] > 57 {
            assert(!is_ascii_digit(s@[i as int]));
            return false;
        }
        assert(is_ascii_digit(s@[i as int]));
        i += 1;
    }
    true
}

} // verus!
