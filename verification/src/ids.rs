//! User identifiers: UUIDs, held as their 128-bit value.

use std::str::FromStr;
use uuid::Uuid;
use vstd::prelude::*;

verus! {

/// The 128-bit value of the UUID that `uuid`'s `Uuid::from_str` reads from a
/// text; `None` where it reads none.
pub uninterp spec fn uuid_value(text: Seq<char>) -> Option<u128>;

/// The text that `uuid` writes for the UUID with a 128-bit value.
pub uninterp spec fn uuid_text(value: u128) -> Seq<char>;

/// Reads a UUID.
///
/// Trusted: calls `uuid`'s `Uuid::from_str` and hands back `as_u128` of what
/// it read. The contract only names the result.
#[verifier::external_body]
pub(crate) fn parse_uuid(text: &str) -> (r: Option<u128>)
    ensures
        r == uuid_value(text@),
{
    Uuid::from_str(text).ok().map(|u| u.as_u128())
}

/// Writes a UUID.
///
/// Trusted: calls `uuid`'s `Uuid::from_u128` and its `Display`. The contract
/// names the result and claims that the text reads back to the same UUID.
#[verifier::external_body]
pub(crate) fn format_uuid(value: u128) -> (r: String)
    ensures
        r@ == uuid_text(value),
        uuid_value(r@) == Some(value),
{
    Uuid::from_u128(value).to_string()
}

/// A fresh random UUID.
///
/// Trusted: calls `uuid`'s `Uuid::new_v4`. Nothing is claimed of the
/// result.
#[verifier::external_body]
pub(crate) fn random_uuid() -> u128 {
    Uuid::new_v4().as_u128()
}

/// 256 to the power `n`.
pub open spec fn pow256(n: nat) -> nat
    decreases n,
{
    if n == 0 {
        1
    } else {
        256 * pow256((n - 1) as nat)
    }
}

/// The 16 bytes of a 128-bit value, the most significant first: the bytes
/// of the UUID with that value.
pub fn uuid_bytes(value: u128) -> (r: Vec<u8>)
    ensures
        r@.len() == 16,
        forall|i: int| 0 <= i < 16 ==> r@[i] as int == (value as int / pow256((15 - i) as nat) as int) % 256,
{
    let mut bytes: Vec<u8> = Vec::new();
    let mut k: usize = 0;
    while k < 16
        invariant
            k <= 16,
            bytes@.len() == k,
            forall|j: int| 0 <= j < k ==> bytes@[j] == 0,
        decreases 16 - k,
    {
        bytes.push(0);
        k += 1;
    }
    let mut rest: u128 = value;
    let mut i: usize = 0;
    while i < 16
        invariant
            i <= 16,
            bytes@.len() == 16,
            pow256(i as nat) > 0,
            rest as int == value as int / pow256(i as nat) as int,
            forall|j: int|
                16 - i <= j < 16 ==> bytes@[j] as int == (value as int / pow256((15 - j) as nat) as int)
                    % 256,
        decreases 16 - i,
    {
        let byte: u8 = (rest % 256) as u8;
        bytes.set(15 - i, byte);
        proof {
            vstd::arithmetic::div_mod::lemma_div_denominator(
                value as int,
                pow256(i as nat) as int,
                256,
            );
            assert(pow256((i + 1) as nat) == 256 * pow256(i as nat));
            assert(pow256(i as nat) as int * 256 == pow256((i + 1) as nat) as int);
        }
        rest = rest / 256;
        i += 1;
    }
    bytes
}

} // verus!
