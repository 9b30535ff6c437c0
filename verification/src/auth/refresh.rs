//! Redeeming a refresh token for a new token pair.
//!
//! A refresh token is good for one redemption. Presenting one that was
//! already redeemed, or one that has no record, is taken as a sign that the
//! session was stolen: every refresh token of that user is revoked.

use crate::auth::util::{issue_pair, issued, TokenPair, TokenPairView, NONCE_LENGTH};
use crate::claims::ClaimSet;
use crate::clock::unix_now;
use crate::codec::{verified_claims, verify, SigningKey};
use crate::entity::refresh_tokens::{kept, Keep, Model, RefreshTokens, Row};
use crate::ids::{parse_uuid, uuid_value};
use crate::random::{all_alphanumeric, random_text};
use crate::response::{
    error_body, error_view, ApiResponse, ApiResponseView, ErrorCode,
    STATUS_INTERNAL_SERVER_ERROR, STATUS_OK, STATUS_UNAUTHORIZED,
};
use crate::token::{decoded, DecodeError, TokenClaims, TokenClaimsView};
use vstd::prelude::*;

verus! {

/// The body of a refresh request.
pub struct RefreshBody {
    pub refresh_token: String,
}

/// Why a refresh token was not redeemed.
#[derive(Clone, Copy, Debug, PartialEq, Eq, Structural)]
pub enum RefreshError {
    /// The token is not one that this service signed, or it lacks a claim
    /// that every refresh token carries.
    Unverified,
    /// The token has expired, was redeemed before, or has no record.
    Expired,
    /// The token is authentic but is no refresh token.
    WrongType,
    /// The new pair could not be issued.
    Internal,
}

impl RefreshError {
    /// The error code that clients see.
    pub open spec fn code(self) -> ErrorCode {
        match self {
            RefreshError::Unverified => ErrorCode::InvalidJwt,
            RefreshError::Expired => ErrorCode::ExpiredJwt,
            RefreshError::WrongType => ErrorCode::InvalidJwt,
            RefreshError::Internal => ErrorCode::InternalServerError,
        }
    }

    /// The message that clients see.
    pub open spec fn message(self) -> Seq<char> {
        match self {
            RefreshError::Unverified => "The provided JWT could not be verified by the server"@,
            RefreshError::Expired => "The JWT provided has already expired. Please log in again"@,
            RefreshError::WrongType => "The provided refresh token is invalid"@,
            RefreshError::Internal => "Internal Server Error"@,
        }
    }

    /// The HTTP status: 500 where issuing failed, 401 for the rest.
    pub open spec fn status(self) -> u16 {
        match self {
            RefreshError::Internal => STATUS_INTERNAL_SERVER_ERROR,
            _ => STATUS_UNAUTHORIZED,
        }
    }

    /// The response that tells the client of this error.
    pub fn response(self) -> (r: (ApiResponse, u16))
        ensures
            r.0@ == error_view(self.code(), self.message()),
            r.1 == self.status(),
    {
        match self {
            RefreshError::Unverified => (
                error_body(
                    ErrorCode::InvalidJwt,
                    "The provided JWT could not be verified by the server",
                ),
                STATUS_UNAUTHORIZED,
            ),
            RefreshError::Expired => (
                error_body(
                    ErrorCode::ExpiredJwt,
                    "The JWT provided has already expired. Please log in again",
                ),
                STATUS_UNAUTHORIZED,
            ),
            RefreshError::WrongType => (
                error_body(ErrorCode::InvalidJwt, "The provided refresh token is invalid"),
                STATUS_UNAUTHORIZED,
            ),
            RefreshError::Internal => (
                error_body(ErrorCode::InternalServerError, "Internal Server Error"),
                STATUS_INTERNAL_SERVER_ERROR,
            ),
        }
    }
}

/// What the claims of an authentic token say when it is presented for
/// redemption at the time `now`: the text of the subject's id, for a refresh
/// token that has not expired. The type is looked at before the expiry.
pub open spec fn refresh_subject(claims: Map<Seq<char>, Seq<char>>, now: i64) -> Result<
    Seq<char>,
    RefreshError,
> {
    match decoded(claims) {
        Err(DecodeError::UnknownType) => Err(RefreshError::WrongType),
        Err(DecodeError::Malformed) => Err(RefreshError::Unverified),
        Ok(TokenClaimsView::Refresh { uid, exp, .. }) => if now > exp {
            Err(RefreshError::Expired)
        } else {
            Ok(uid)
        },
        Ok(_) => Err(RefreshError::WrongType),
    }
}

/// The user that a token presented for redemption at the time `now` stands
/// for: the id text and its value, for a token that is authentic, a refresh
/// token and not expired.
pub open spec fn presented(token: Seq<char>, key: Seq<u8>, now: i64) -> Result<
    (Seq<char>, u128),
    RefreshError,
> {
    match verified_claims(token, key) {
        None => Err(RefreshError::Unverified),
        Some(claims) => match refresh_subject(claims, now) {
            Err(e) => Err(e),
            Ok(uid) => match uuid_value(uid) {
                None => Err(RefreshError::Unverified),
                Some(id) => Ok((uid, id)),
            },
        },
    }
}

/// What to do with a presented token, given the record that the table has
/// of it.
#[derive(Clone, Copy, Debug, PartialEq, Eq, Structural)]
pub enum RedeemAction {
    /// No record, or one that is used: revoke every refresh token of the
    /// user and turn the request away.
    RevokeFamily,
    /// The record has expired: turn the request away and change nothing.
    Reject,
    /// Mark the record as used, then issue a new pair.
    Rotate,
}

/// What to do with a presented token at the time `now`, given the record
/// that the table has of it.
pub open spec fn redeem_action(found: Option<Row>, now: i64) -> RedeemAction {
    match found {
        None => RedeemAction::RevokeFamily,
        Some(row) => if row.used {
            RedeemAction::RevokeFamily
        } else if now > row.expiry {
            RedeemAction::Reject
        } else {
            RedeemAction::Rotate
        },
    }
}

/// The record that a table has of a token.
pub open spec fn lookup(table: Map<Seq<char>, Row>, token: Seq<char>) -> Option<Row> {
    if table.contains_key(token) {
        Some(table[token])
    } else {
        None
    }
}

/// The content of a record once it is marked as used.
pub open spec fn used_row(row: Row) -> Row {
    Row { uid: row.uid, expiry: row.expiry, used: true }
}

/// What presenting a token for redemption does to the table of refresh
/// tokens, and what it returns.
pub open spec fn redeemed(
    table: Map<Seq<char>, Row>,
    token: Seq<char>,
    key: Seq<u8>,
    now: i64,
    nonce: Seq<char>,
) -> (Map<Seq<char>, Row>, Result<(Seq<char>, TokenPairView), RefreshError>) {
    match presented(token, key, now) {
        Err(e) => (table, Err(e)),
        Ok((uid, id)) => match redeem_action(lookup(table, token), now) {
            RedeemAction::RevokeFamily => (
                kept(table, Keep::OtherUsers(id)),
                Err(RefreshError::Expired),
            ),
            RedeemAction::Reject => (table, Err(RefreshError::Expired)),
            RedeemAction::Rotate => {
                let marked = table.insert(token, used_row(table[token]));
                let (after, outcome) = issued(marked, uid, key, now, nonce, false);
                match outcome {
                    Ok(pair) => (after, Ok((uid, pair))),
                    Err(_) => (after, Err(RefreshError::Internal)),
                }
            },
        },
    }
}

/// The response to a redemption.
pub open spec fn refresh_reply(outcome: Result<(Seq<char>, TokenPairView), RefreshError>) -> (
    ApiResponseView,
    u16,
) {
    match outcome {
        Ok((uid, pair)) => (
            ApiResponseView::RefreshResponse {
                uid,
                access_token: pair.access_token,
                refresh_token: pair.refresh_token,
                expiry: pair.expiry,
            },
            STATUS_OK,
        ),
        Err(e) => (error_view(e.code(), e.message()), e.status()),
    }
}

/// Judges the claims of an authentic token that is presented for
/// redemption.
pub fn check_refresh_claims(claims: &ClaimSet, now: i64) -> (r: Result<String, RefreshError>)
    ensures
        match r {
            Ok(uid) => refresh_subject(claims@, now) == Ok::<Seq<char>, RefreshError>(uid@),
            Err(e) => refresh_subject(claims@, now) == Err::<Seq<char>, RefreshError>(e),
        },
{
    match TokenClaims::decode(claims) {
        Err(DecodeError::UnknownType) => Err(RefreshError::WrongType),
        Err(DecodeError::Malformed) => Err(RefreshError::Unverified),
        Ok(TokenClaims::Refresh { uid, exp, .. }) => if now > exp {
            Err(RefreshError::Expired)
        } else {
            Ok(uid)
        },
        Ok(_) => Err(RefreshError::WrongType),
    }
}

/// Checks a token that is presented for redemption, before any record is
/// looked at: its signature, its expiry, its type and its subject.
pub fn check_presented(token: &str, key: &SigningKey, now: i64) -> (r: Result<
    (String, u128),
    RefreshError,
>)
    ensures
        match r {
            Ok(s) => presented(token@, key@, now) == Ok::<(Seq<char>, u128), RefreshError>(
                (s.0@, s.1),
            ),
            Err(e) => presented(token@, key@, now) == Err::<(Seq<char>, u128), RefreshError>(e),
        },
{
    let claims = match verify(token, key) {
        Ok(c) => c,
        Err(_) => {
            return Err(RefreshError::Unverified);
        },
    };
    let uid = match check_refresh_claims(&claims, now) {
        Ok(uid) => uid,
        Err(e) => {
            return Err(e);
        },
    };
    match parse_uuid(uid.as_str()) {
        Some(id) => Ok((uid, id)),
        None => Err(RefreshError::Unverified),
    }
}

/// Decides what to do with a presented token at the time `now`, given the
/// record that was found of it.
pub fn decide_redeem(found: &Option<Model>, now: i64) -> (r: RedeemAction)
    ensures
        r == redeem_action(
            match *found {
                Some(m) => Some(crate::entity::refresh_tokens::row_of(m)),
                None => None,
            },
            now,
        ),
{
    match found {
        None => RedeemAction::RevokeFamily,
        Some(m) => if m.used {
            RedeemAction::RevokeFamily
        } else if now > m.expiry {
            RedeemAction::Reject
        } else {
            RedeemAction::Rotate
        },
    }
}

/// Redeems a refresh token at a given time; `nonce` is the random part of
/// the refresh token that is issued.
///
/// Returns the user's id text and the new pair, or why there is none.
pub fn redeem(
    tokens: &mut RefreshTokens,
    token: &str,
    key: &SigningKey,
    now: i64,
    nonce: &str,
) -> (r: Result<(String, TokenPair), RefreshError>)
    ensures
        final(tokens)@ == redeemed(old(tokens)@, token@, key@, now, nonce@).0,
        match redeemed(old(tokens)@, token@, key@, now, nonce@).1 {
            Ok((uid, pair)) => r matches Ok(got) && got.0@ == uid && got.1@ == pair,
            Err(e) => r == Err::<(String, TokenPair), RefreshError>(e),
        },
{
    let (uid, id) = match check_presented(token, key, now) {
        Ok(s) => s,
        Err(e) => {
            return Err(e);
        },
    };
    let found = tokens.find_by_id(token);
    match decide_redeem(&found, now) {
        RedeemAction::RevokeFamily => {
            tokens.delete_by_uid(id);
            Err(RefreshError::Expired)
        },
        RedeemAction::Reject => Err(RefreshError::Expired),
        RedeemAction::Rotate => {
            let marked = tokens.mark_used(token);
            match issue_pair(tokens, uid.as_str(), key, now, nonce, false) {
                Ok(pair) => Ok((uid, pair)),
                Err(_) => Err(RefreshError::Internal),
            }
        },
    }
}

/// Answers a refresh request at a given time; `nonce` is the random part of
/// the refresh token that is issued.
pub fn handler_at(
    tokens: &mut RefreshTokens,
    key: &SigningKey,
    body: &RefreshBody,
    now: i64,
    nonce: &str,
) -> (r: (ApiResponse, u16))
    ensures
        final(tokens)@ == redeemed(old(tokens)@, body.refresh_token@, key@, now, nonce@).0,
        (r.0@, r.1) == refresh_reply(
            redeemed(old(tokens)@, body.refresh_token@, key@, now, nonce@).1,
        ),
{
    match redeem(tokens, body.refresh_token.as_str(), key, now, nonce) {
        Ok((uid, pair)) => (
            ApiResponse::RefreshResponse {
                uid,
                access_token: pair.access_token,
                refresh_token: pair.refresh_token,
                expiry: pair.expiry,
            },
            STATUS_OK,
        ),
        Err(e) => e.response(),
    }
}

/// Answers a refresh request.
///
/// The time is read from the clock and the new refresh token's random part
/// is drawn here: the result is that of `handler_at` for some time and some
/// text of `NONCE_LENGTH` letters and digits.
pub fn handler(tokens: &mut RefreshTokens, key: &SigningKey, body: &RefreshBody) -> (r: (
    ApiResponse,
    u16,
))
    ensures
        exists|now: i64, nonce: Seq<char>|
            {
                let outcome = #[trigger] redeemed(
                    old(tokens)@,
                    body.refresh_token@,
                    key@,
                    now,
                    nonce,
                );
                &&& nonce.len() == NONCE_LENGTH
                &&& all_alphanumeric(nonce)
                &&& final(tokens)@ == outcome.0
                &&& (r.0@, r.1) == refresh_reply(outcome.1)
            },
{
    let now: i64 = unix_now();
    let nonce = random_text(NONCE_LENGTH);
    handler_at(tokens, key, body, now, nonce.as_str())
}

} // verus!
