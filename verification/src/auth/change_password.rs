//! Changing the password of the user that a request acts for.
//!
//! The request proves the right to do so with the old password, or with a
//! password-reset token in its place. A reset token is good for one change
//! of password: its record is deleted when the password has been changed.

use crate::auth::util::{check_header, header_verdict, header_view};
use crate::claims::ClaimSet;
use crate::clock::unix_now;
use crate::codec::{verified_claims, verify};
use crate::config::Config;
use crate::entity::refresh_tokens::{RefreshTokens, Row};
use crate::entity::users::{Model, Stored, UserView, Users};
use crate::password::{
    hash_with_salt, hashed, judge_strength, password_matches, strength_fault, verify_password,
    weak_message, write_weak_message, PasswordFault, Strength,
};
use crate::random::random_salt;
use crate::response::{
    api_error, error_view, ErrorCode, Failure, Reply, ReplyView, STATUS_BAD_REQUEST, STATUS_OK,
};
use crate::token::{decoded, TokenClaims, TokenClaimsView};
use vstd::prelude::*;

verus! {

/// The body of a request to change the password.
pub struct ChangePassBody {
    /// The old password, or a password-reset token.
    pub old_password: String,
    pub new_password: String,
}

/// Whether what stands for the old password is a reset token that is good
/// at the time `now`, given its claims where it is an authentic token and
/// whether the table of reset tokens has a record of it.
///
/// What is no authentic token is taken for a password: `Ok(false)`. A token
/// that has expired, is of another type or has no record any more is an
/// error.
pub open spec fn reset_check(claims: Option<Map<Seq<char>, Seq<char>>>, on_record: bool, now: i64) -> Result<
    bool,
    Failure,
> {
    match claims {
        None => Ok(false),
        Some(c) => match decoded(c) {
            Ok(TokenClaimsView::PasswordReset { exp, .. }) => if now > exp {
                Err(Failure::ResetTokenExpired)
            } else if !on_record {
                Err(Failure::TokenInvalid)
            } else {
                Ok(true)
            },
            _ => Err(Failure::TokenInvalid),
        },
    }
}

/// The tables after a change of password, and the reply to it.
pub ghost struct ChangeOutcome {
    pub users: Map<u128, UserView>,
    pub resets: Map<Seq<char>, Row>,
    pub reply: ReplyView,
}

/// What a request to change the password does, and what it answers, given
/// the estimate of the new password's strength, the salt and the time.
pub open spec fn changed_password(
    users: Map<u128, UserView>,
    resets: Map<Seq<char>, Row>,
    config: Config,
    header: Option<Seq<u8>>,
    body: ChangePassBody,
    estimate: Option<Strength>,
    salt: Seq<u8>,
    now: i64,
) -> ChangeOutcome {
    let refused = |reply: ReplyView| ChangeOutcome { users, resets, reply };
    match header_verdict(header, config.secret_key@, now) {
        Err(e) => refused(e.refusal()),
        Ok(uid) => match strength_fault(estimate, config.minimum_password_strength) {
            Some(PasswordFault::Unusable) => refused(Failure::EmptyPassword.refusal()),
            Some(PasswordFault::Weak(warning)) => refused(
                ReplyView::Json(
                    error_view(ErrorCode::InvalidPassword, weak_message(warning)),
                    STATUS_BAD_REQUEST,
                ),
            ),
            None => match reset_check(
                verified_claims(body.old_password@, config.secret_key@),
                resets.contains_key(body.old_password@),
                now,
            ) {
                Err(f) => refused(f.refusal()),
                Ok(by_token) => if !users.contains_key(uid) {
                    refused(Failure::UserMissing.refusal())
                } else if !by_token && password_matches(users[uid].password, body.old_password@)
                    is None {
                    refused(Failure::InternalChangingPassword.refusal())
                } else if !by_token && password_matches(users[uid].password, body.old_password@)
                    == Some(false) {
                    refused(Failure::PasswordMismatch.refusal())
                } else {
                    match hashed(body.new_password@, salt, config.argon2_config) {
                        None => refused(Failure::InternalChangingPassword.refusal()),
                        Some(hash) => ChangeOutcome {
                            users: users.insert(uid, UserView { password: hash, ..users[uid] }),
                            resets: if by_token {
                                resets.remove(body.old_password@)
                            } else {
                                resets
                            },
                            reply: ReplyView::Empty(STATUS_OK),
                        },
                    }
                },
            },
        },
    }
}

/// Judges what stands for the old password as a reset token.
pub fn check_reset_token(claims: &Option<ClaimSet>, on_record: bool, now: i64) -> (r: Result<
    bool,
    Failure,
>)
    ensures
        r == reset_check(
            match *claims {
                Some(c) => Some(c@),
                None => None,
            },
            on_record,
            now,
        ),
{
    let c = match claims {
        Some(c) => c,
        None => {
            return Ok(false);
        },
    };
    match TokenClaims::decode(c) {
        Ok(TokenClaims::PasswordReset { exp, .. }) => if now > exp {
            Err(Failure::ResetTokenExpired)
        } else if !on_record {
            Err(Failure::TokenInvalid)
        } else {
            Ok(true)
        },
        _ => Err(Failure::TokenInvalid),
    }
}

/// Answers a request to change the password, given what was drawn for it.
pub fn handler_with(
    users: &mut Users,
    resets: &mut RefreshTokens,
    config: &Config,
    auth_header: Option<&[u8]>,
    body: &ChangePassBody,
    estimate: Option<Strength>,
    salt: &Vec<u8>,
    now: i64,
) -> (r: Reply)
    ensures
        ({
            let outcome = changed_password(
                old(users)@,
                old(resets)@,
                *config,
                header_view(auth_header),
                *body,
                estimate,
                salt@,
                now,
            );
            &&& final(users)@ == outcome.users
            &&& final(resets)@ == outcome.resets
            &&& r@ == outcome.reply
        }),
{
    let uid = match check_header(auth_header, &config.secret_key, now) {
        Ok(uid) => uid,
        Err(e) => {
            return e.refuse();
        },
    };
    match judge_strength(estimate, config.minimum_password_strength) {
        Some(PasswordFault::Unusable) => {
            return Failure::EmptyPassword.refuse();
        },
        Some(PasswordFault::Weak(warning)) => {
            return Reply::Json(
                api_error(write_weak_message(&warning), ErrorCode::InvalidPassword.to_text()),
                STATUS_BAD_REQUEST,
            );
        },
        None => {},
    }
    let claims = match verify(body.old_password.as_str(), &config.secret_key) {
        Ok(c) => Some(c),
        Err(_) => None,
    };
    let on_record = resets.find_by_id(body.old_password.as_str()).is_some();
    let by_token = match check_reset_token(&claims, on_record, now) {
        Ok(by_token) => by_token,
        Err(f) => {
            return f.refuse();
        },
    };
    let user = match users.find_by_id(uid) {
        Some(user) => user,
        None => {
            return Failure::UserMissing.refuse();
        },
    };
    if !by_token {
        match verify_password(user.password.as_str(), body.old_password.as_str()) {
            Err(_) => {
                return Failure::InternalChangingPassword.refuse();
            },
            Ok(false) => {
                return Failure::PasswordMismatch.refuse();
            },
            Ok(true) => {},
        }
    }
    let hash = match hash_with_salt(body.new_password.as_str(), salt, &config.argon2_config) {
        Ok(h) => h,
        Err(_) => {
            return Failure::InternalChangingPassword.refuse();
        },
    };
    let new_user = Model {
        uid: user.uid,
        email: user.email,
        password: hash,
        created_at: user.created_at,
        updated_at: user.updated_at,
        last_login: user.last_login,
        active: user.active,
        metadata: user.metadata,
        email_verified: user.email_verified,
        is_admin: user.is_admin,
    };
    users.attest();
    assert(!crate::entity::users::email_taken_by_other(users@, uid, new_user.email@));
    let stored = users.update(new_user);
    assert(stored == Stored::Done);
    if by_token {
        resets.delete_by_id(body.old_password.as_str());
    }
    Reply::Empty(STATUS_OK)
}

/// Answers a request to change the password.
///
/// The new password's strength is estimated, and the salt and the time are
/// drawn here: the result is that of `handler_with` for some such values. An
/// empty new password is never accepted.
pub fn handler(
    users: &mut Users,
    resets: &mut RefreshTokens,
    config: &Config,
    auth_header: Option<&[u8]>,
    body: &ChangePassBody,
) -> (r: Reply)
    ensures
        exists|estimate: Option<Strength>, salt: Seq<u8>, now: i64|
            {
                let outcome = #[trigger] changed_password(
                    old(users)@,
                    old(resets)@,
                    *config,
                    header_view(auth_header),
                    *body,
                    estimate,
                    salt,
                    now,
                );
                &&& (body.new_password@.len() == 0 ==> estimate is None)
                &&& (estimate matches Some(s) ==> s.score <= 4)
                &&& salt.len() == config.argon2_config.salt_length
                &&& final(users)@ == outcome.users
                &&& final(resets)@ == outcome.resets
                &&& r@ == outcome.reply
            },
{
    let estimate = crate::password::estimate(body.new_password.as_str());
    let salt = random_salt(config.argon2_config.salt_length);
    let now = unix_now();
    let ghost seen = estimate;
    let r = handler_with(users, resets, config, auth_header, body, estimate, &salt, now);
    assert(final(users)@ == changed_password(
        old(users)@,
        old(resets)@,
        *config,
        header_view(auth_header),
        *body,
        seen,
        salt@,
        now,
    ).users);
    r
}

} // verus!
