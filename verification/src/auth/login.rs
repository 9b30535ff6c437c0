//! Logging in with an email address and a password.

use crate::auth::util::{issue_pair, issued, NONCE_LENGTH};
use crate::clock::unix_now;
use crate::codec::SigningKey;
use crate::entity::refresh_tokens::{RefreshTokens, Row};
use crate::entity::users::{by_email, UserView, Users};
use crate::ids::{format_uuid, uuid_text};
use crate::password::{password_matches, verify_password};
use crate::random::{all_alphanumeric, random_text};
use crate::response::{ApiResponse, ApiResponseView, Failure, STATUS_OK};
use vstd::prelude::*;

verus! {

/// The body of a login request.
pub struct LoginBody {
    pub email: String,
    pub password: String,
}

/// The metadata of a user as responses carry it: empty where the user has
/// none.
pub open spec fn metadata_text(metadata: Option<Seq<char>>) -> Seq<char> {
    match metadata {
        Some(m) => m,
        None => Seq::empty(),
    }
}

/// What a login does to the table of refresh tokens, and what it answers,
/// at the time `now` and with `nonce` as the random part of the refresh
/// token.
///
/// An unknown address and a wrong password get the same answer. A disabled
/// user is told so before the password is looked at. A stored hash that
/// cannot be read is an internal error, never a wrong password.
pub open spec fn logged_in(
    users: Map<u128, UserView>,
    tokens: Map<Seq<char>, Row>,
    key: Seq<u8>,
    body: LoginBody,
    now: i64,
    nonce: Seq<char>,
    admin: bool,
) -> (Map<Seq<char>, Row>, (ApiResponseView, u16)) {
    match by_email(users, body.email@) {
        None => (tokens, Failure::InvalidCredentials.reply()),
        Some(user) => if admin && !user.is_admin {
            (tokens, Failure::InvalidCredentials.reply())
        } else if !admin && !user.active {
            (tokens, Failure::UserDisabled.reply())
        } else {
            match password_matches(user.password, body.password@) {
                None => (tokens, Failure::InternalOccurred.reply()),
                Some(false) => (tokens, Failure::InvalidCredentials.reply()),
                Some(true) => {
                    let (kept, outcome) = issued(tokens, uuid_text(user.uid), key, now, nonce, admin);
                    match outcome {
                        Ok(pair) => (
                            kept,
                            (
                                ApiResponseView::LoginResponse {
                                    uid: uuid_text(user.uid),
                                    token: pair.access_token,
                                    expiry: pair.expiry,
                                    refresh_token: pair.refresh_token,
                                    email_verified: user.email_verified,
                                    metadata: metadata_text(user.metadata),
                                },
                                STATUS_OK,
                            ),
                        ),
                        Err(_) => (kept, Failure::InternalOccurred.reply()),
                    }
                },
            }
        },
    }
}

/// Logs a user, or an administrator, in at a given time.
pub fn log_in(
    users: &Users,
    tokens: &mut RefreshTokens,
    key: &SigningKey,
    body: &LoginBody,
    now: i64,
    nonce: &str,
    admin: bool,
) -> (r: (ApiResponse, u16))
    ensures
        final(tokens)@ == logged_in(users@, old(tokens)@, key@, *body, now, nonce@, admin).0,
        (r.0@, r.1) == logged_in(users@, old(tokens)@, key@, *body, now, nonce@, admin).1,
{
    let user = match users.find_by_email(body.email.as_str()) {
        Some(user) => user,
        None => {
            return Failure::InvalidCredentials.response();
        },
    };
    if admin && !user.is_admin {
        return Failure::InvalidCredentials.response();
    }
    if !admin && !user.active {
        return Failure::UserDisabled.response();
    }
    match verify_password(user.password.as_str(), body.password.as_str()) {
        Err(_) => {
            return Failure::InternalOccurred.response();
        },
        Ok(false) => {
            return Failure::InvalidCredentials.response();
        },
        Ok(true) => {},
    }
    let uid_text = format_uuid(user.uid);
    match issue_pair(tokens, uid_text.as_str(), key, now, nonce, admin) {
        Ok(pair) => (
            ApiResponse::LoginResponse {
                uid: uid_text,
                token: pair.access_token,
                expiry: pair.expiry,
                refresh_token: pair.refresh_token,
                email_verified: user.email_verified,
                metadata: match user.metadata {
                    Some(m) => m,
                    None => String::new(),
                },
            },
            STATUS_OK,
        ),
        Err(_) => Failure::InternalOccurred.response(),
    }
}

/// Answers a login request at a given time; `nonce` is the random part of
/// the refresh token that is issued.
pub fn handler_at(
    users: &Users,
    tokens: &mut RefreshTokens,
    key: &SigningKey,
    body: &LoginBody,
    now: i64,
    nonce: &str,
) -> (r: (ApiResponse, u16))
    ensures
        final(tokens)@ == logged_in(users@, old(tokens)@, key@, *body, now, nonce@, false).0,
        (r.0@, r.1) == logged_in(users@, old(tokens)@, key@, *body, now, nonce@, false).1,
{
    log_in(users, tokens, key, body, now, nonce, false)
}

/// Answers a login request.
///
/// The time is read from the clock and the refresh token's random part is
/// drawn here: the result is that of `handler_at` for some time and some
/// text of `NONCE_LENGTH` letters and digits.
pub fn handler(users: &Users, tokens: &mut RefreshTokens, key: &SigningKey, body: &LoginBody) -> (r:
    (ApiResponse, u16))
    ensures
        exists|now: i64, nonce: Seq<char>|
            {
                let outcome = #[trigger] logged_in(
                    users@,
                    old(tokens)@,
                    key@,
                    *body,
                    now,
                    nonce,
                    false,
                );
                &&& nonce.len() == NONCE_LENGTH
                &&& all_alphanumeric(nonce)
                &&& final(tokens)@ == outcome.0
                &&& (r.0@, r.1) == outcome.1
            },
{
    let now = unix_now();
    let nonce = random_text(NONCE_LENGTH);
    handler_at(users, tokens, key, body, now, nonce.as_str())
}

} // verus!
