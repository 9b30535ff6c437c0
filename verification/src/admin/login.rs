//! Logging an administrator in.

use crate::auth::login::{log_in, logged_in};
use crate::auth::util::NONCE_LENGTH;
use crate::clock::unix_now;
use crate::codec::SigningKey;
use crate::entity::refresh_tokens::RefreshTokens;
use crate::entity::users::Users;
use crate::random::{all_alphanumeric, random_text};
use crate::response::ApiResponse;
use vstd::prelude::*;

verus! {

/// The body of an administrator's login request.
pub struct LoginBody {
    pub email: String,
    pub password: String,
}

/// The body as the login rules read it.
pub open spec fn credentials(body: LoginBody) -> crate::auth::login::LoginBody {
    crate::auth::login::LoginBody { email: body.email, password: body.password }
}

/// Answers an administrator's login request at a given time; `nonce` is the
/// random part of the refresh token that is issued.
///
/// Only an administrator is logged in; the access token names the role.
pub fn handler_at(
    users: &Users,
    tokens: &mut RefreshTokens,
    key: &SigningKey,
    body: &LoginBody,
    now: i64,
    nonce: &str,
) -> (r: (ApiResponse, u16))
    ensures
        final(tokens)@ == logged_in(
            users@,
            old(tokens)@,
            key@,
            credentials(*body),
            now,
            nonce@,
            true,
        ).0,
        (r.0@, r.1) == logged_in(users@, old(tokens)@, key@, credentials(*body), now, nonce@, true).1,
{
    let given = crate::auth::login::LoginBody {
        email: body.email.clone(),
        password: body.password.clone(),
    };
    assert(given.email@ == body.email@ && given.password@ == body.password@);
    let r = log_in(users, tokens, key, &given, now, nonce, true);
    assert(logged_in(users@, old(tokens)@, key@, given, now, nonce@, true) == logged_in(
        users@,
        old(tokens)@,
        key@,
        credentials(*body),
        now,
        nonce@,
        true,
    ));
    r
}

/// Answers an administrator's login request.
///
/// The time is read from the clock and the refresh token's random part is
/// drawn here: the result is that of `handler_at` for some time and some
/// text of `NONCE_LENGTH` letters and digits.
pub fn handler(users: &Users, tokens: &mut RefreshTokens, key: &SigningKey, body: &LoginBody) -> (r:
    (ApiResponse, u16))
    ensures
        exists|now: i64, nonce: Seq<char>|
            {
                let outcome = #[trigger] logged_in(
                    users@,
                    old(tokens)@,
                    key@,
                    credentials(*body),
                    now,
                    nonce,
                    true,
                );
                &&& nonce.len() == NONCE_LENGTH
                &&& all_alphanumeric(nonce)
                &&& final(tokens)@ == outcome.0
                &&& (r.0@, r.1) == outcome.1
            },
{
    let now = unix_now();
    let nonce = random_text(NONCE_LENGTH);
    handler_at(users, tokens, key, body, now, nonce.as_str())
}

} // verus!
