//! Random alphanumeric strings, for tokens and identifiers.

use vstd::prelude::*;

use rand::Rng;

use crate::text::push_char;

verus! {

/// Whether a byte is an ASCII letter or digit.
pub open spec fn alnum_byte(b: u8) -> bool {
    (0x41 <= b <= 0x5a) || (0x61 <= b <= 0x7a) || (0x30 <= b <= 0x39)
}

/// Whether a character is an ASCII letter or digit.
pub open spec fn alnum_char(c: char) -> bool {
    ('A' <= c <= 'Z') || ('a' <= c <= 'z') || ('0' <= c <= '9')
}

/// `n` samples of `rand::distributions::Alphanumeric` from the thread's
/// generator. Claims: `n` bytes, each an ASCII letter or digit (the
/// distribution picks from those 62); which ones is left to chance.
#[verifier::external_body]
fn alphanumeric_samples(n: usize) -> (r: Vec<u8>)
    ensures
        r@.len() == n,
        forall|i: int| 0 <= i < n ==> alnum_byte(#[trigger] r@[i]),
{
    rand::thread_rng().sample_iter(&rand::distributions::Alphanumeric).take(n).collect()
}

/// A random string of `length` ASCII letters and digits.
pub fn generate_random_string(length: usize) -> (r: String)
    ensures
        r@.len() == length,
        forall|i: int| 0 <= i < length ==> alnum_char(#[trigger] r@[i]),
{
    let bytes = alphanumeric_samples(length);
    let mut r = String::new();
    let mut i: usize = 0;
    while i < bytes.len()
        invariant
            i <= bytes@.len(),
            bytes@.len() == length,
            r@.len() == i,
            forall|j: int| 0 <= j < length ==> alnum_byte(#[trigger] bytes@[j]),
            forall|j: int| 0 <= j < i ==> alnum_char(#[trigger] r@[j]),
        decreases bytes@.len() - i,
    {
        let b = bytes[i];
        assert(alnum_byte(b));
        let c = b as char;
        assert(alnum_char(c));
        push_char(&mut r, c);
        i = i + 1;
    }
    r
}

} // verus!
