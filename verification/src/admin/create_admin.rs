//! Creating an administrator.

use crate::auth::signup::SignupOutcome;
use crate::auth::util::{issue_pair, issued, NONCE_LENGTH};
use crate::clock::unix_now;
use crate::config::Config;
use crate::entity::refresh_tokens::RefreshTokens;
use crate::entity::refresh_tokens::Row;
use crate::entity::users::{email_known, Model, Stored, UserView, Users};
use crate::ids::{format_uuid, random_uuid, uuid_text};
use crate::password::{
    hash_with_salt, hashed, judge_strength, strength_fault, weak_message, write_weak_message,
    PasswordFault, Strength,
};
use crate::random::{all_alphanumeric, random_salt, random_text};
use crate::response::{
    api_error, error_view, ApiResponse, ApiResponseView, ErrorCode, Failure,
    STATUS_BAD_REQUEST, STATUS_CREATED,
};
use vstd::prelude::*;

verus! {

/// The body of a request to create an administrator.
pub struct SignupBody {
    pub email: String,
    pub password: String,
    /// Whether to log the new administrator in at once.
    pub login: bool,
}

/// The record of the administrator that a request creates: active, with a
/// verified address and empty metadata.
pub open spec fn new_admin(email: Seq<char>, uid: u128, hash: Seq<char>, now: i64) -> UserView {
    UserView {
        uid,
        email,
        password: hash,
        created_at: now,
        updated_at: now,
        last_login: None,
        active: true,
        metadata: Some(Seq::empty()),
        email_verified: true,
        is_admin: true,
    }
}

/// What a request to create an administrator does, and what it answers,
/// given what was drawn for it: the estimate of the password's strength, the
/// new id, the salt, the time and the random part of a refresh token.
pub open spec fn admin_created(
    users: Map<u128, UserView>,
    tokens: Map<Seq<char>, Row>,
    config: Config,
    body: SignupBody,
    estimate: Option<Strength>,
    uid: u128,
    salt: Seq<u8>,
    now: i64,
    nonce: Seq<char>,
) -> SignupOutcome {
    match strength_fault(estimate, config.minimum_password_strength) {
        Some(PasswordFault::Unusable) => SignupOutcome {
            users,
            tokens,
            reply: Failure::InvalidPassword.reply(),
        },
        Some(PasswordFault::Weak(warning)) => SignupOutcome {
            users,
            tokens,
            reply: (error_view(ErrorCode::WeakPassword, weak_message(warning)), STATUS_BAD_REQUEST),
        },
        None => match hashed(body.password@, salt, config.argon2_config) {
            None => SignupOutcome { users, tokens, reply: Failure::InternalAdmin.reply() },
            Some(hash) => if email_known(users, body.email@) {
                SignupOutcome { users, tokens, reply: Failure::EmailInUse.reply() }
            } else if users.contains_key(uid) {
                SignupOutcome { users, tokens, reply: Failure::InternalAdmin.reply() }
            } else {
                let created = users.insert(uid, new_admin(body.email@, uid, hash, now));
                if !body.login {
                    SignupOutcome {
                        users: created,
                        tokens,
                        reply: (
                            ApiResponseView::SignupResponse { uid: uuid_text(uid) },
                            STATUS_CREATED,
                        ),
                    }
                } else {
                    let (kept, outcome) = issued(
                        tokens,
                        uuid_text(uid),
                        config.secret_key@,
                        now,
                        nonce,
                        true,
                    );
                    match outcome {
                        Ok(pair) => SignupOutcome {
                            users: created,
                            tokens: kept,
                            reply: (
                                ApiResponseView::LoginResponse {
                                    uid: uuid_text(uid),
                                    token: pair.access_token,
                                    expiry: pair.expiry,
                                    refresh_token: pair.refresh_token,
                                    email_verified: true,
                                    metadata: Seq::empty(),
                                },
                                STATUS_CREATED,
                            ),
                        },
                        Err(_) => SignupOutcome {
                            users: created,
                            tokens: kept,
                            reply: Failure::InternalAdmin.reply(),
                        },
                    }
                }
            },
        },
    }
}

/// Answers a request to create an administrator, given what was drawn for
/// it.
pub fn handler_with(
    users: &mut Users,
    tokens: &mut RefreshTokens,
    config: &Config,
    body: &SignupBody,
    estimate: Option<Strength>,
    uid: u128,
    salt: &Vec<u8>,
    now: i64,
    nonce: &str,
) -> (r: (ApiResponse, u16))
    ensures
        ({
            let outcome = admin_created(
                old(users)@,
                old(tokens)@,
                *config,
                *body,
                estimate,
                uid,
                salt@,
                now,
                nonce@,
            );
            &&& final(users)@ == outcome.users
            &&& final(tokens)@ == outcome.tokens
            &&& (r.0@, r.1) == outcome.reply
        }),
{
    match judge_strength(estimate, config.minimum_password_strength) {
        Some(PasswordFault::Unusable) => {
            return Failure::InvalidPassword.response();
        },
        Some(PasswordFault::Weak(warning)) => {
            return (
                api_error(write_weak_message(&warning), ErrorCode::WeakPassword.to_text()),
                STATUS_BAD_REQUEST,
            );
        },
        None => {},
    }
    let hash = match hash_with_salt(body.password.as_str(), salt, &config.argon2_config) {
        Ok(h) => h,
        Err(_) => {
            return Failure::InternalAdmin.response();
        },
    };
    let user = Model {
        uid,
        email: body.email.clone(),
        password: hash,
        created_at: now,
        updated_at: now,
        last_login: None,
        active: true,
        metadata: Some(String::new()),
        email_verified: true,
        is_admin: true,
    };
    match users.insert(user) {
        Stored::Done => {},
        Stored::EmailTaken => {
            return Failure::EmailInUse.response();
        },
        Stored::IdMismatch => {
            return Failure::InternalAdmin.response();
        },
    }
    let uid_text = format_uuid(uid);
    if !body.login {
        return (ApiResponse::SignupResponse { uid: uid_text }, STATUS_CREATED);
    }
    match issue_pair(tokens, uid_text.as_str(), &config.secret_key, now, nonce, true) {
        Ok(pair) => (
            ApiResponse::LoginResponse {
                uid: uid_text,
                token: pair.access_token,
                expiry: pair.expiry,
                refresh_token: pair.refresh_token,
                email_verified: true,
                metadata: String::new(),
            },
            STATUS_CREATED,
        ),
        Err(_) => Failure::InternalAdmin.response(),
    }
}

/// Answers a request to create an administrator.
///
/// The password's strength is estimated, and the id, the salt, the time and
/// the random part of the refresh token are drawn here: the result is that
/// of `handler_with` for some such values. An empty password is never
/// accepted.
pub fn handler(users: &mut Users, tokens: &mut RefreshTokens, config: &Config, body: &SignupBody) -> (r:
    (ApiResponse, u16))
    ensures
        exists|estimate: Option<Strength>, uid: u128, salt: Seq<u8>, now: i64, nonce: Seq<char>|
            {
                let outcome = #[trigger] admin_created(
                    old(users)@,
                    old(tokens)@,
                    *config,
                    *body,
                    estimate,
                    uid,
                    salt,
                    now,
                    nonce,
                );
                &&& (body.password@.len() == 0 ==> estimate is None)
                &&& (estimate matches Some(s) ==> s.score <= 4)
                &&& salt.len() == config.argon2_config.salt_length
                &&& nonce.len() == NONCE_LENGTH
                &&& all_alphanumeric(nonce)
                &&& final(users)@ == outcome.users
                &&& final(tokens)@ == outcome.tokens
                &&& (r.0@, r.1) == outcome.reply
            },
{
    let estimate = crate::password::estimate(body.password.as_str());
    let uid = random_uuid();
    let salt = random_salt(config.argon2_config.salt_length);
    let now = unix_now();
    let nonce = random_text(NONCE_LENGTH);
    let ghost seen = estimate;
    let r = handler_with(users, tokens, config, body, estimate, uid, &salt, now, nonce.as_str());
    assert(final(users)@ == admin_created(
        old(users)@,
        old(tokens)@,
        *config,
        *body,
        seen,
        uid,
        salt@,
        now,
        nonce@,
    ).users);
    r
}

} // verus!
