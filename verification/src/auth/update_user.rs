//! Changing the email address or the metadata of the user that a request
//! acts for.

use crate::auth::util::{check_header, header_verdict, header_view};
use crate::clock::unix_now;
use crate::codec::SigningKey;
use crate::entity::users::{email_taken_by_other, Model, Stored, UserView, Users};
use crate::response::{Failure, Reply, ReplyView, STATUS_OK};
use vstd::prelude::*;

verus! {

/// What to do with the user's metadata.
pub enum Metadata {
    /// Set it to this text.
    Data(String),
    /// Remove it.
    Nothing,
}

/// The body of an update request. What is absent stays as it is.
pub struct UpdateUserBody {
    pub email: Option<String>,
    pub metadata: Option<Metadata>,
}

/// The record of a user once the changes of `body` are made.
pub open spec fn changed(user: UserView, body: UpdateUserBody) -> UserView {
    UserView {
        email: match body.email {
            Some(email) => email@,
            None => user.email,
        },
        metadata: match body.metadata {
            Some(Metadata::Data(text)) => Some(text@),
            Some(Metadata::Nothing) => None,
            None => user.metadata,
        },
        ..user
    }
}

/// What an update does to the table of users, and what it answers, at the
/// time `now`. An address that another user has is not taken over: the
/// table stays as it was.
pub open spec fn updated(
    users: Map<u128, UserView>,
    key: Seq<u8>,
    header: Option<Seq<u8>>,
    body: UpdateUserBody,
    now: i64,
) -> (Map<u128, UserView>, ReplyView) {
    match header_verdict(header, key, now) {
        Err(e) => (users, e.refusal()),
        Ok(uid) => if !users.contains_key(uid) {
            (users, Failure::UserNotFoundBadRequest.refusal())
        } else {
            let user = changed(users[uid], body);
            if email_taken_by_other(users, uid, user.email) {
                (users, Failure::InternalOccurred.refusal())
            } else {
                (users.insert(uid, user), ReplyView::Empty(STATUS_OK))
            }
        },
    }
}

/// Answers an update request at a given time.
pub fn handler_at(
    users: &mut Users,
    key: &SigningKey,
    auth_header: Option<&[u8]>,
    body: &UpdateUserBody,
    now: i64,
) -> (r: Reply)
    ensures
        final(users)@ == updated(old(users)@, key@, header_view(auth_header), *body, now).0,
        r@ == updated(old(users)@, key@, header_view(auth_header), *body, now).1,
{
    let uid = match check_header(auth_header, key, now) {
        Ok(uid) => uid,
        Err(e) => {
            return e.refuse();
        },
    };
    let user = match users.find_by_id(uid) {
        Some(user) => user,
        None => {
            return Failure::UserNotFoundBadRequest.refuse();
        },
    };
    let new_user = Model {
        uid: user.uid,
        email: match &body.email {
            Some(email) => email.clone(),
            None => user.email,
        },
        password: user.password,
        created_at: user.created_at,
        updated_at: user.updated_at,
        last_login: user.last_login,
        active: user.active,
        metadata: match &body.metadata {
            Some(Metadata::Data(text)) => Some(text.clone()),
            Some(Metadata::Nothing) => None,
            None => user.metadata,
        },
        email_verified: user.email_verified,
        is_admin: user.is_admin,
    };
    assert(new_user@ == changed(old(users)@[uid], *body));
    match users.update(new_user) {
        Stored::Done => Reply::Empty(STATUS_OK),
        _ => Failure::InternalOccurred.refuse(),
    }
}

/// Answers an update request at the time the clock shows.
pub fn handler(
    users: &mut Users,
    key: &SigningKey,
    auth_header: Option<&[u8]>,
    body: &UpdateUserBody,
) -> (r: Reply)
    ensures
        exists|now: i64|
            {
                let outcome = #[trigger] updated(
                    old(users)@,
                    key@,
                    header_view(auth_header),
                    *body,
                    now,
                );
                final(users)@ == outcome.0 && r@ == outcome.1
            },
{
    let now = unix_now();
    handler_at(users, key, auth_header, body, now)
}

} // verus!
