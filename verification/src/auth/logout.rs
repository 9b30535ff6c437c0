//! Logging out: revoking one refresh token, or all of a user's.

use crate::auth::util::{check_header, header_verdict, header_view};
use crate::clock::unix_now;
use crate::codec::SigningKey;
use crate::entity::refresh_tokens::{kept, Keep, RefreshTokens, Row};
use crate::response::{Reply, ReplyView, STATUS_OK};
use vstd::prelude::*;

verus! {

/// The body of a logout request.
pub struct LogoutBody {
    /// The refresh token to revoke; without one, all of the user's are
    /// revoked.
    pub refresh_token: Option<String>,
}

/// What a logout does to the table of refresh tokens, and what it answers,
/// at the time `now`. Revoking is idempotent: a token without a record
/// changes nothing, and the answer is the same.
pub open spec fn logged_out(
    tokens: Map<Seq<char>, Row>,
    key: Seq<u8>,
    header: Option<Seq<u8>>,
    body: LogoutBody,
    now: i64,
) -> (Map<Seq<char>, Row>, ReplyView) {
    match header_verdict(header, key, now) {
        Err(e) => (tokens, e.refusal()),
        Ok(uid) => match body.refresh_token {
            Some(token) => (tokens.remove(token@), ReplyView::Empty(STATUS_OK)),
            None => (kept(tokens, Keep::OtherUsers(uid)), ReplyView::Empty(STATUS_OK)),
        },
    }
}

/// Answers a logout request at a given time.
pub fn handler_at(
    tokens: &mut RefreshTokens,
    key: &SigningKey,
    auth_header: Option<&[u8]>,
    body: &LogoutBody,
    now: i64,
) -> (r: Reply)
    ensures
        final(tokens)@ == logged_out(old(tokens)@, key@, header_view(auth_header), *body, now).0,
        r@ == logged_out(old(tokens)@, key@, header_view(auth_header), *body, now).1,
{
    let uid = match check_header(auth_header, key, now) {
        Ok(uid) => uid,
        Err(e) => {
            return e.refuse();
        },
    };
    match &body.refresh_token {
        Some(token) => tokens.delete_by_id(token.as_str()),
        None => tokens.delete_by_uid(uid),
    }
    Reply::Empty(STATUS_OK)
}

/// Answers a logout request at the time the clock shows.
pub fn handler(
    tokens: &mut RefreshTokens,
    key: &SigningKey,
    auth_header: Option<&[u8]>,
    body: &LogoutBody,
) -> (r: Reply)
    ensures
        exists|now: i64|
            {
                let outcome = #[trigger] logged_out(
                    old(tokens)@,
                    key@,
                    header_view(auth_header),
                    *body,
                    now,
                );
                final(tokens)@ == outcome.0 && r@ == outcome.1
            },
{
    let now = unix_now();
    handler_at(tokens, key, auth_header, body, now)
}

} // verus!
