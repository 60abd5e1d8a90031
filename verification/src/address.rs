//! Matching Bluetooth addresses as text, ignoring case.
//!
//! Addresses are written as hexadecimal octets separated by colons, such as
//! "c4:be:84:d4:68:1b", so ASCII case folding is all the matching needs: a
//! byte outside ASCII never equals one inside it.

use vstd::prelude::*;
use vstd::string::StringSliceAdditionalSpecFns;

verus! {

/// A byte with ASCII upper-case letters turned into lower case.
pub open spec fn ascii_lower(b: u8) -> u8 {
    if 0x41 <= b <= 0x5a {
        (b + 0x20) as u8
    } else {
        b
    }
}

/// Whether two byte strings are equal once ASCII letters are lower-cased.
pub open spec fn same_ignoring_case(a: Seq<u8>, b: Seq<u8>) -> bool {
    &&& a.len() == b.len()
    &&& forall|i: int| 0 <= i < a.len() ==> ascii_lower(#[trigger] a[i]) == ascii_lower(b[i])
}

/// Whether a byte is an ASCII letter (either case).
pub open spec fn is_ascii_letter(b: u8) -> bool {
    (0x41 <= b <= 0x5a) || (0x61 <= b <= 0x7a)
}

/// Two bytes match ignoring case exactly when they are equal, or are the
/// upper- and lower-case forms of one ASCII letter (which lie 0x20 apart).
pub proof fn lemma_lower_matches_case_pairs(x: u8, y: u8)
    ensures
        ascii_lower(x) == ascii_lower(y) <==> (x == y || (is_ascii_letter(x) && is_ascii_letter(y)
            && (x as int - y as int == 0x20 || y as int - x as int == 0x20))),
{
}

/// Two byte strings match ignoring case exactly when they have the same length
/// and each pair of bytes is equal or is the two cases of one ASCII letter.
pub proof fn lemma_same_ignoring_case_bytewise(a: Seq<u8>, b: Seq<u8>)
    ensures
        same_ignoring_case(a, b) <==> (a.len() == b.len() && forall|i: int|
            0 <= i < a.len() ==> (#[trigger] a[i] == b[i] || (is_ascii_letter(a[i])
                && is_ascii_letter(b[i]) && (a[i] as int - b[i] as int == 0x20 || b[i] as int
                - a[i] as int == 0x20)))),
{
    assert forall|i: int| 0 <= i < a.len() && a.len() == b.len() implies (ascii_lower(#[trigger] a[i])
        == ascii_lower(b[i]) <==> (a[i] == b[i] || (is_ascii_letter(a[i]) && is_ascii_letter(b[i])
        && (a[i] as int - b[i] as int == 0x20 || b[i] as int - a[i] as int == 0x20)))) by {
        lemma_lower_matches_case_pairs(a[i], b[i]);
    }
}

fn lower(b: u8) -> (r: u8)
    ensures
        r == ascii_lower(b),
{
    if 0x41 <= b && b <= 0x5a {
        b + 0x20
    } else {
        b
    }
}

/// Whether the address a device reports is the address asked for, ignoring
/// the case of letters.
pub fn address_matches(found: &str, wanted: &str) -> (r: bool)
    ensures
        r == same_ignoring_case(found.spec_bytes(), wanted.spec_bytes()),
{
    let a = found.as_bytes();
    let b = wanted.as_bytes();
    if a.len() != b.len() {
        return false;
    }
    let mut i: usize = 0;
    while i < a.len()
        invariant
            a@ == found.spec_bytes(),
            b@ == wanted.spec_bytes(),
            a@.len() == b@.len(),
            i <= a@.len(),
            forall|k: int| 0 <= k < i ==> ascii_lower(#[trigger] a@[k]) == ascii_lower(b@[k]),
        decreases a@.len() - i,
    {
        if lower(a[i]) != lower(b[i]) {
            return false;
        }
        i = i + 1;
    }
    true
}

} // verus!
