//! Deleting the user that a request acts for, with all its refresh tokens.

use crate::auth::util::{check_header, header_verdict, header_view};
use crate::clock::unix_now;
use crate::codec::SigningKey;
use crate::entity::refresh_tokens::{kept, Keep, RefreshTokens, Row};
use crate::entity::users::{UserView, Users};
use crate::response::{Reply, ReplyView, STATUS_OK};
use vstd::prelude::*;

verus! {

/// What deleting a user does to the tables, and what it answers, at the
/// time `now`.
pub open spec fn deleted(
    users: Map<u128, UserView>,
    tokens: Map<Seq<char>, Row>,
    key: Seq<u8>,
    header: Option<Seq<u8>>,
    now: i64,
) -> (Map<u128, UserView>, Map<Seq<char>, Row>, ReplyView) {
    match header_verdict(header, key, now) {
        Err(e) => (users, tokens, e.refusal()),
        Ok(uid) => (
            users.remove(uid),
            kept(tokens, Keep::OtherUsers(uid)),
            ReplyView::Empty(STATUS_OK),
        ),
    }
}

/// Answers a request to delete the user, at a given time.
pub fn handler_at(
    users: &mut Users,
    tokens: &mut RefreshTokens,
    key: &SigningKey,
    auth_header: Option<&[u8]>,
    now: i64,
) -> (r: Reply)
    ensures
        final(users)@ == deleted(old(users)@, old(tokens)@, key@, header_view(auth_header), now).0,
        final(tokens)@ == deleted(old(users)@, old(tokens)@, key@, header_view(auth_header), now).1,
        r@ == deleted(old(users)@, old(tokens)@, key@, header_view(auth_header), now).2,
{
    let uid = match check_header(auth_header, key, now) {
        Ok(uid) => uid,
        Err(e) => {
            return e.refuse();
        },
    };
    users.delete_by_id(uid);
    tokens.delete_by_uid(uid);
    Reply::Empty(STATUS_OK)
}

/// Answers a request to delete the user, at the time the clock shows.
pub fn handler(
    users: &mut Users,
    tokens: &mut RefreshTokens,
    key: &SigningKey,
    auth_header: Option<&[u8]>,
) -> (r: Reply)
    ensures
        exists|now: i64|
            {
                let outcome = #[trigger] deleted(
                    old(users)@,
                    old(tokens)@,
                    key@,
                    header_view(auth_header),
                    now,
                );
                final(users)@ == outcome.0 && final(tokens)@ == outcome.1 && r@ == outcome.2
            },
{
    let now = unix_now();
    handler_at(users, tokens, key, auth_header, now)
}

} // verus!
