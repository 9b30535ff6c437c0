//! The guard in front of the administration routes.
//!
//! A request to a path under `/api/admin` passes with the access token of
//! an administrator, or with one of the service's administration tokens.
//! Requests to other paths pass untouched.

use crate::auth::util::{
    check_bearer_scheme, header_chars, is_bearer_scheme, is_header_text, read_header_text,
};
use crate::claims::ClaimSet;
use crate::clock::unix_now;
use crate::codec::{verified_claims, verify, SigningKey};
use crate::ids::{parse_uuid, uuid_value};
use crate::text::{chars_of, has_prefix, same_text, split_whitespace, starts_with, texts, words};
use crate::token::{decoded, TokenClaims, TokenClaimsView};
use vstd::prelude::*;

verus! {

/// The verdict of the guard on a request.
#[derive(Clone, Copy, Debug, PartialEq, Eq, Structural)]
pub enum AdminVerdict {
    /// The request goes on to the service.
    Pass,
    /// 401: the request has no `Authorization` header.
    MissingHeader,
    /// 401: the header does not show an administrator.
    InvalidHeader,
}

impl AdminVerdict {
    /// The text of the refusal.
    pub open spec fn message(self) -> Seq<char> {
        match self {
            AdminVerdict::Pass => Seq::empty(),
            AdminVerdict::MissingHeader => "Missing authorization header"@,
            AdminVerdict::InvalidHeader => "Invalid authorization header"@,
        }
    }

    /// The text of the refusal; empty for a request that passes.
    pub fn to_message(self) -> (r: String)
        ensures
            r@ == self.message(),
    {
        match self {
            AdminVerdict::Pass => String::new(),
            AdminVerdict::MissingHeader => "Missing authorization header".to_string(),
            AdminVerdict::InvalidHeader => "Invalid authorization header".to_string(),
        }
    }
}

/// Whether the claims of an authentic token are those of an administrator's
/// access token that has not expired at the time `now`.
pub open spec fn is_admin_access(claims: Map<Seq<char>, Seq<char>>, now: i64) -> bool {
    decoded(claims) matches Ok(TokenClaimsView::Access { exp, admin, .. }) && admin && now <= exp
}

/// The verdict of the guard on a request to `path` with the given
/// `Authorization` header value, at the time `now`; `admin_tokens` are the
/// administration tokens of the service.
pub open spec fn admin_verdict(
    path: Seq<char>,
    header: Option<Seq<u8>>,
    key: Seq<u8>,
    admin_tokens: Seq<u128>,
    now: i64,
) -> AdminVerdict {
    if !has_prefix(path, "/api/admin"@) {
        AdminVerdict::Pass
    } else {
        match header {
            None => AdminVerdict::MissingHeader,
            Some(bytes) => {
                let parts = words(header_chars(bytes));
                if !is_header_text(bytes) || parts.len() < 2 {
                    AdminVerdict::InvalidHeader
                } else if is_bearer_scheme(parts[0]) {
                    match verified_claims(parts[1], key) {
                        Some(claims) => if is_admin_access(claims, now) {
                            AdminVerdict::Pass
                        } else {
                            AdminVerdict::InvalidHeader
                        },
                        None => AdminVerdict::InvalidHeader,
                    }
                } else if parts[0] == "token"@ || parts[0] == "Token"@ {
                    match uuid_value(parts[1]) {
                        Some(token) => if admin_tokens.contains(token) {
                            AdminVerdict::Pass
                        } else {
                            AdminVerdict::InvalidHeader
                        },
                        None => AdminVerdict::InvalidHeader,
                    }
                } else {
                    AdminVerdict::InvalidHeader
                }
            },
        }
    }
}

/// Tests whether the claims of an authentic token are those of an
/// administrator's access token that has not expired.
pub fn check_admin_claims(claims: &ClaimSet, now: i64) -> (r: bool)
    ensures
        r == is_admin_access(claims@, now),
{
    match TokenClaims::decode(claims) {
        Ok(TokenClaims::Access { exp, admin, .. }) => admin && now <= exp,
        _ => false,
    }
}

/// Tests whether `token` is one of `admin_tokens`.
pub fn is_admin_token(admin_tokens: &Vec<u128>, token: u128) -> (r: bool)
    ensures
        r == admin_tokens@.contains(token),
{
    let mut i: usize = 0;
    while i < admin_tokens.len()
        invariant
            i <= admin_tokens.len(),
            forall|j: int| 0 <= j < i ==> admin_tokens@[j] != token,
        decreases admin_tokens.len() - i,
    {
        if admin_tokens[i] == token {
            return true;
        }
        i += 1;
    }
    false
}

/// The guard at a given time.
pub fn call_at(
    path: &str,
    auth_header: Option<&[u8]>,
    key: &SigningKey,
    admin_tokens: &Vec<u128>,
    now: i64,
) -> (r: AdminVerdict)
    ensures
        r == admin_verdict(
            path@,
            crate::auth::util::header_view(auth_header),
            key@,
            admin_tokens@,
            now,
        ),
{
    let path_chars = chars_of(path);
    let prefix = chars_of("/api/admin");
    if !starts_with(&path_chars, &prefix) {
        return AdminVerdict::Pass;
    }
    let bytes = match auth_header {
        Some(b) => b,
        None => {
            return AdminVerdict::MissingHeader;
        },
    };
    let chars = match read_header_text(bytes) {
        Some(chars) => chars,
        None => {
            return AdminVerdict::InvalidHeader;
        },
    };
    let parts = split_whitespace(&chars);
    if parts.len() < 2 {
        return AdminVerdict::InvalidHeader;
    }
    assert(texts(parts@)[0] == parts@[0]@);
    assert(texts(parts@)[1] == parts@[1]@);
    let scheme = parts[0].as_str();
    let token = parts[1].as_str();
    if check_bearer_scheme(scheme) {
        match verify(token, key) {
            Ok(claims) => if check_admin_claims(&claims, now) {
                AdminVerdict::Pass
            } else {
                AdminVerdict::InvalidHeader
            },
            Err(_) => AdminVerdict::InvalidHeader,
        }
    } else if same_text(scheme, "token") || same_text(scheme, "Token") {
        match parse_uuid(token) {
            Some(t) => if is_admin_token(admin_tokens, t) {
                AdminVerdict::Pass
            } else {
                AdminVerdict::InvalidHeader
            },
            None => AdminVerdict::InvalidHeader,
        }
    } else {
        AdminVerdict::InvalidHeader
    }
}

/// The guard, at the time the clock shows.
pub fn call(path: &str, auth_header: Option<&[u8]>, key: &SigningKey, admin_tokens: &Vec<u128>) -> (r:
    AdminVerdict)
    ensures
        exists|now: i64|
            r == #[trigger] admin_verdict(
                path@,
                crate::auth::util::header_view(auth_header),
                key@,
                admin_tokens@,
                now,
            ),
{
    let now = unix_now();
    call_at(path, auth_header, key, admin_tokens, now)
}

} // verus!
