//! Creating a user with an email address and a password.

use crate::auth::util::{issue_pair, issued, NONCE_LENGTH};
use crate::clock::unix_now;
use crate::config::Config;
use crate::email_address::{is_email, is_valid_email};
use crate::entity::refresh_tokens::{RefreshTokens, Row};
use crate::entity::users::{email_known, Model, Stored, UserView, Users};
use crate::ids::{format_uuid, random_uuid, uuid_text};
use crate::password::{
    hash_with_salt, hashed, judge_strength, strength_fault, weak_message, write_weak_message,
    PasswordFault, Strength,
};
use crate::random::{all_alphanumeric, random_salt, random_text};
use crate::response::{
    api_error, error_view, ApiResponse, ApiResponseView, ErrorCode, Failure,
    STATUS_BAD_REQUEST, STATUS_CREATED,
};
use vstd::prelude::*;

verus! {

/// The body of a sign-up request.
pub struct SignupBody {
    pub email: String,
    pub password: String,
    pub email_verified: bool,
    /// Whether to log the new user in at once.
    pub login: bool,
    pub metadata: String,
}

/// The record of the user that a sign-up creates.
pub open spec fn new_user(body: SignupBody, uid: u128, hash: Seq<char>, now: i64) -> UserView {
    UserView {
        uid,
        email: body.email@,
        password: hash,
        created_at: now,
        updated_at: now,
        last_login: None,
        active: true,
        metadata: Some(body.metadata@),
        email_verified: body.email_verified,
        is_admin: false,
    }
}

/// The tables after a sign-up, and the response to it.
pub ghost struct SignupOutcome {
    pub users: Map<u128, UserView>,
    pub tokens: Map<Seq<char>, Row>,
    pub reply: (ApiResponseView, u16),
}

/// What a sign-up does, and what it answers, given what was drawn for it:
/// the estimate of the password's strength, the new user's id, the salt,
/// the time and the random part of a refresh token.
///
/// The request is turned down, in this order, for an address that has not
/// the form of one, for a password that is empty or too weak, and for an
/// address that is in use; nothing is changed then. Otherwise the user is
/// created, and logged in where the request asks for it.
pub open spec fn signed_up(
    users: Map<u128, UserView>,
    tokens: Map<Seq<char>, Row>,
    config: Config,
    body: SignupBody,
    estimate: Option<Strength>,
    uid: u128,
    salt: Seq<u8>,
    now: i64,
    nonce: Seq<char>,
) -> SignupOutcome {
    if !is_email(body.email@) {
        SignupOutcome { users, tokens, reply: Failure::InvalidEmail.reply() }
    } else {
        match strength_fault(estimate, config.minimum_password_strength) {
            Some(PasswordFault::Unusable) => SignupOutcome {
                users,
                tokens,
                reply: Failure::EmptyPassword.reply(),
            },
            Some(PasswordFault::Weak(warning)) => SignupOutcome {
                users,
                tokens,
                reply: (
                    error_view(ErrorCode::InvalidPassword, weak_message(warning)),
                    STATUS_BAD_REQUEST,
                ),
            },
            None => match hashed(body.password@, salt, config.argon2_config) {
                None => SignupOutcome { users, tokens, reply: Failure::Internal.reply() },
                Some(hash) => if email_known(users, body.email@) {
                    SignupOutcome { users, tokens, reply: Failure::EmailAlreadyInUse.reply() }
                } else if users.contains_key(uid) {
                    SignupOutcome { users, tokens, reply: Failure::Internal.reply() }
                } else {
                    let created = users.insert(uid, new_user(body, uid, hash, now));
                    if !body.login {
                        SignupOutcome {
                            users: created,
                            tokens,
                            reply: (
                                ApiResponseView::SignupResponse { uid: uuid_text(uid) },
                                STATUS_CREATED,
                            ),
                        }
                    } else {
                        let (kept, outcome) = issued(
                            tokens,
                            uuid_text(uid),
                            config.secret_key@,
                            now,
                            nonce,
                            false,
                        );
                        match outcome {
                            Ok(pair) => SignupOutcome {
                                users: created,
                                tokens: kept,
                                reply: (
                                    ApiResponseView::LoginResponse {
                                        uid: uuid_text(uid),
                                        token: pair.access_token,
                                        expiry: pair.expiry,
                                        refresh_token: pair.refresh_token,
                                        email_verified: body.email_verified,
                                        metadata: body.metadata@,
                                    },
                                    STATUS_CREATED,
                                ),
                            },
                            Err(_) => SignupOutcome {
                                users: created,
                                tokens: kept,
                                reply: Failure::Internal.reply(),
                            },
                        }
                    }
                },
            },
        }
    }
}

/// Answers a sign-up request, given what was drawn for it.
pub fn handler_with(
    users: &mut Users,
    tokens: &mut RefreshTokens,
    config: &Config,
    body: &SignupBody,
    estimate: Option<Strength>,
    uid: u128,
    salt: &Vec<u8>,
    now: i64,
    nonce: &str,
) -> (r: (ApiResponse, u16))
    ensures
        ({
            let outcome = signed_up(
                old(users)@,
                old(tokens)@,
                *config,
                *body,
                estimate,
                uid,
                salt@,
                now,
                nonce@,
            );
            &&& final(users)@ == outcome.users
            &&& final(tokens)@ == outcome.tokens
            &&& (r.0@, r.1) == outcome.reply
        }),
{
    if !is_valid_email(body.email.as_str()) {
        return Failure::InvalidEmail.response();
    }
    match judge_strength(estimate, config.minimum_password_strength) {
        Some(PasswordFault::Unusable) => {
            return Failure::EmptyPassword.response();
        },
        Some(PasswordFault::Weak(warning)) => {
            return (
                api_error(write_weak_message(&warning), ErrorCode::InvalidPassword.to_text()),
                STATUS_BAD_REQUEST,
            );
        },
        None => {},
    }
    let hash = match hash_with_salt(body.password.as_str(), salt, &config.argon2_config) {
        Ok(h) => h,
        Err(_) => {
            return Failure::Internal.response();
        },
    };
    let user = Model {
        uid,
        email: body.email.clone(),
        password: hash,
        created_at: now,
        updated_at: now,
        last_login: None,
        active: true,
        metadata: Some(body.metadata.clone()),
        email_verified: body.email_verified,
        is_admin: false,
    };
    match users.insert(user) {
        Stored::Done => {},
        Stored::EmailTaken => {
            return Failure::EmailAlreadyInUse.response();
        },
        Stored::IdMismatch => {
            return Failure::Internal.response();
        },
    }
    let uid_text = format_uuid(uid);
    if !body.login {
        return (ApiResponse::SignupResponse { uid: uid_text }, STATUS_CREATED);
    }
    match issue_pair(tokens, uid_text.as_str(), &config.secret_key, now, nonce, false) {
        Ok(pair) => (
            ApiResponse::LoginResponse {
                uid: uid_text,
                token: pair.access_token,
                expiry: pair.expiry,
                refresh_token: pair.refresh_token,
                email_verified: body.email_verified,
                metadata: body.metadata.clone(),
            },
            STATUS_CREATED,
        ),
        Err(_) => Failure::Internal.response(),
    }
}

/// Answers a sign-up request.
///
/// The password's strength is estimated, and the user's id, the salt, the
/// time and the random part of the refresh token are drawn here: the result
/// is that of `handler_with` for some such values. An empty password is
/// never accepted.
pub fn handler(users: &mut Users, tokens: &mut RefreshTokens, config: &Config, body: &SignupBody) -> (r:
    (ApiResponse, u16))
    ensures
        exists|estimate: Option<Strength>, uid: u128, salt: Seq<u8>, now: i64, nonce: Seq<char>|
            {
                let outcome = #[trigger] signed_up(
                    old(users)@,
                    old(tokens)@,
                    *config,
                    *body,
                    estimate,
                    uid,
                    salt,
                    now,
                    nonce,
                );
                &&& (body.password@.len() == 0 ==> estimate is None)
                &&& (estimate matches Some(s) ==> s.score <= 4)
                &&& salt.len() == config.argon2_config.salt_length
                &&& nonce.len() == NONCE_LENGTH
                &&& all_alphanumeric(nonce)
                &&& final(users)@ == outcome.users
                &&& final(tokens)@ == outcome.tokens
                &&& (r.0@, r.1) == outcome.reply
            },
{
    let estimate = crate::password::estimate(body.password.as_str());
    let uid = random_uuid();
    let salt = random_salt(config.argon2_config.salt_length);
    let now = unix_now();
    let nonce = random_text(NONCE_LENGTH);
    let ghost seen = estimate;
    let r = handler_with(users, tokens, config, body, estimate, uid, &salt, now, nonce.as_str());
    assert(final(users)@ == signed_up(
        old(users)@,
        old(tokens)@,
        *config,
        *body,
        seen,
        uid,
        salt@,
        now,
        nonce@,
    ).users);
    r
}

} // verus!
