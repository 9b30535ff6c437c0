//! Reading the record of the user that a request acts for.

use crate::auth::util::{check_header, header_verdict, header_view};
use crate::clock::unix_now;
use crate::codec::SigningKey;
use crate::entity::users::{UserView, Users};
use crate::ids::{format_uuid, uuid_text};
use crate::response::{error_view, ApiResponse, ApiResponseView, Failure, STATUS_OK};
use vstd::prelude::*;

verus! {

/// The response that shows a user's record.
pub open spec fn user_response(user: UserView) -> ApiResponseView {
    ApiResponseView::UserResponse {
        uid: uuid_text(user.uid),
        email: user.email,
        created_at: user.created_at,
        updated_at: user.updated_at,
        last_login: user.last_login,
        active: user.active,
        metadata: user.metadata,
        email_verified: user.email_verified,
    }
}

/// The answer to a request for the user's record at the time `now`.
pub open spec fn shown(users: Map<u128, UserView>, key: Seq<u8>, header: Option<Seq<u8>>, now: i64) -> (
    ApiResponseView,
    u16,
) {
    match header_verdict(header, key, now) {
        Err(e) => (error_view(e.code(), e.message()), e.status()),
        Ok(uid) => if users.contains_key(uid) {
            (user_response(users[uid]), STATUS_OK)
        } else {
            Failure::UserNotFound.reply()
        },
    }
}

/// Answers a request for the user's record, at a given time.
pub fn handler_at(users: &Users, key: &SigningKey, auth_header: Option<&[u8]>, now: i64) -> (r: (
    ApiResponse,
    u16,
))
    ensures
        (r.0@, r.1) == shown(users@, key@, header_view(auth_header), now),
{
    let uid = match check_header(auth_header, key, now) {
        Ok(uid) => uid,
        Err(e) => {
            return e.response();
        },
    };
    match users.find_by_id(uid) {
        Some(user) => (
            ApiResponse::UserResponse {
                uid: format_uuid(user.uid),
                email: user.email,
                created_at: user.created_at,
                updated_at: user.updated_at,
                last_login: user.last_login,
                active: user.active,
                metadata: user.metadata,
                email_verified: user.email_verified,
            },
            STATUS_OK,
        ),
        None => Failure::UserNotFound.response(),
    }
}

/// Answers a request for the user's record, at the time the clock shows.
pub fn handler(users: &Users, key: &SigningKey, auth_header: Option<&[u8]>) -> (r: (
    ApiResponse,
    u16,
))
    ensures
        exists|now: i64| (r.0@, r.1) == #[trigger] shown(users@, key@, header_view(auth_header), now),
{
    let now = unix_now();
    handler_at(users, key, auth_header, now)
}

} // verus!
