//! The token codec: signs claim sets into compact tokens with a keyed MAC
//! and verifies tokens back into claim sets.
//!
//! The codec proves that a token is authentic and unaltered, nothing more:
//! whether it is still valid, and what it may be used for, is for the caller
//! to check in its claims.

use crate::claims::{claim_map, ClaimSet};
use hmac::{Hmac, Mac};
use jwt::{SignWithKey, VerifyWithKey};
use sha2::Sha256;
use std::collections::BTreeMap;
use vstd::prelude::*;

verus! {

/// The secret that tokens are signed with: fixed when the service starts,
/// and handed to every function that signs or verifies.
pub struct SigningKey {
    pub bytes: Vec<u8>,
}

impl View for SigningKey {
    type V = Seq<u8>;

    open spec fn view(&self) -> Seq<u8> {
        self.bytes@
    }
}

/// Why the codec gave no result.
#[derive(Clone, Copy, Debug, PartialEq, Eq, Structural)]
pub enum CodecError {
    /// The claim set could not be signed.
    SigningFailed,
    /// The token is malformed or its signature does not match.
    InvalidToken,
}

/// The token that `jwt`'s `sign_with_key` returns for a claim map, under an
/// HMAC-SHA256 key made of the given bytes; `None` where it returns an error.
pub uninterp spec fn signed_token(claims: Map<Seq<char>, Seq<char>>, key: Seq<u8>) -> Option<
    Seq<char>,
>;

/// The claim map that `jwt`'s `verify_with_key` returns for a token, under
/// an HMAC-SHA256 key made of the given bytes; `None` where it returns an
/// error.
pub uninterp spec fn verified_claims(token: Seq<char>, key: Seq<u8>) -> Option<
    Map<Seq<char>, Seq<char>>,
>;

/// Trusted: builds the `Hmac<Sha256>` key with `Mac::new_from_slice`, fills a
/// `BTreeMap` with the pairs in order and calls `jwt`'s
/// `SignWithKey::sign_with_key` on it. The contract names the result, and
/// claims one fact of the crate that nothing here proves: a token that was
/// signed verifies, under the same key, to the claims it was signed from.
#[verifier::external_body]
fn jwt_sign(entries: &Vec<(String, String)>, key: &Vec<u8>) -> (r: Option<String>)
    ensures
        match r {
            Some(t) => signed_token(claim_map(entries@), key@) == Some(t@) && verified_claims(
                t@,
                key@,
            ) == Some(claim_map(entries@)),
            None => signed_token(claim_map(entries@), key@) is None,
        },
{
    let mac: Hmac<Sha256> = Hmac::new_from_slice(key.as_slice()).ok()?;
    let mut map: BTreeMap<&str, &str> = BTreeMap::new();
    for (k, v) in entries.iter() {
        map.insert(k.as_str(), v.as_str());
    }
    map.sign_with_key(&mac).ok()
}

/// Trusted: builds the `Hmac<Sha256>` key with `Mac::new_from_slice` and
/// calls `jwt`'s `VerifyWithKey::verify_with_key` for a
/// `BTreeMap<String, String>`, whose pairs it hands back. The contract only
/// names the result.
#[verifier::external_body]
fn jwt_verify(token: &str, key: &Vec<u8>) -> (r: Option<Vec<(String, String)>>)
    ensures
        match r {
            Some(entries) => verified_claims(token@, key@) == Some(claim_map(entries@)),
            None => verified_claims(token@, key@) is None,
        },
{
    let mac: Hmac<Sha256> = Hmac::new_from_slice(key.as_slice()).ok()?;
    let claims: BTreeMap<String, String> = token.verify_with_key(&mac).ok()?;
    Some(claims.into_iter().collect())
}

/// The token that the codec hands out for a claim map under a key: the one
/// that the signing scheme gives, which verifies under the same key to the
/// same claims. `None` where there is no such token.
pub open spec fn sealed(claims: Map<Seq<char>, Seq<char>>, key: Seq<u8>) -> Option<Seq<char>> {
    match signed_token(claims, key) {
        Some(token) => if verified_claims(token, key) == Some(claims) {
            Some(token)
        } else {
            None
        },
        None => None,
    }
}

/// Signs a claim set.
///
/// Returns the token that the signing scheme gives for the claims under
/// `key`, or `SigningFailed` where it gives none. A token that is returned
/// verifies under the same key to the same claims.
pub fn sign(claims: &ClaimSet, key: &SigningKey) -> (r: Result<String, CodecError>)
    ensures
        match r {
            Ok(t) => sealed(claims@, key@) == Some(t@),
            Err(e) => e == CodecError::SigningFailed && sealed(claims@, key@) is None,
        },
{
    match jwt_sign(&claims.entries, &key.bytes) {
        Some(t) => Ok(t),
        None => Err(CodecError::SigningFailed),
    }
}

/// Verifies a token.
///
/// Returns the claims of a token that is well formed and carries the
/// signature that `key` gives, and `InvalidToken` for every other text.
pub fn verify(token: &str, key: &SigningKey) -> (r: Result<ClaimSet, CodecError>)
    ensures
        match r {
            Ok(claims) => verified_claims(token@, key@) == Some(claims@),
            Err(e) => e == CodecError::InvalidToken && verified_claims(token@, key@) is None,
        },
{
    match jwt_verify(token, &key.bytes) {
        Some(entries) => Ok(ClaimSet { entries }),
        None => Err(CodecError::InvalidToken),
    }
}

} // verus!
