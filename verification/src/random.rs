//! Random values: token nonces and password salts.

use rand::distributions::Alphanumeric;
use rand::{thread_rng, Rng};
use vstd::prelude::*;

verus! {

/// Whether `c` is an ASCII letter or digit.
pub open spec fn is_alphanumeric(c: char) -> bool {
    ('a' <= c <= 'z') || ('A' <= c <= 'Z') || ('0' <= c <= '9')
}

/// Whether every character of `s` is an ASCII letter or digit.
pub open spec fn all_alphanumeric(s: Seq<char>) -> bool {
    forall|i: int| 0 <= i < s.len() ==> is_alphanumeric(#[trigger] s[i])
}

/// A random ASCII letter or digit.
///
/// Trusted: samples `rand`'s `Alphanumeric` distribution with the thread's
/// generator. The contract says only what holds of every sample: it is a
/// letter or a digit.
#[verifier::external_body]
fn random_alphanumeric() -> (r: char)
    ensures
        is_alphanumeric(r),
{
    char::from(thread_rng().sample(Alphanumeric))
}

/// A random byte below `bound`.
///
/// Trusted: calls `rand`'s `Rng::gen_range` with the range from zero to
/// `bound`, which must not be empty. The contract says only that the result
/// lies in the range.
#[verifier::external_body]
fn random_below(bound: u8) -> (r: u8)
    requires
        bound > 0,
    ensures
        r < bound,
{
    thread_rng().gen_range(0..bound)
}

/// A random text of `len` ASCII letters and digits.
pub fn random_text(len: usize) -> (r: String)
    ensures
        r@.len() == len,
        all_alphanumeric(r@),
{
    let mut chars: Vec<char> = Vec::new();
    let mut i: usize = 0;
    while i < len
        invariant
            i <= len,
            chars@.len() == i,
            all_alphanumeric(chars@),
        decreases len - i,
    {
        let c = random_alphanumeric();
        chars.push(c);
        i += 1;
    }
    crate::text::string_of(&chars)
}

/// A random salt of `len` bytes, each below 255.
pub fn random_salt(len: u32) -> (r: Vec<u8>)
    ensures
        r@.len() == len,
        forall|i: int| 0 <= i < r@.len() ==> r@[i] < 255,
{
    let mut salt: Vec<u8> = Vec::new();
    let mut i: u32 = 0;
    while i < len
        invariant
            i <= len,
            salt@.len() == i,
            forall|j: int| 0 <= j < salt@.len() ==> salt@[j] < 255,
        decreases len - i,
    {
        let b = random_below(255);
        salt.push(b);
        i += 1;
    }
    salt
}

} // verus!
