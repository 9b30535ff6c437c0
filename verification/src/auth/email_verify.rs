//! Verifying a user's email address: a mail with a signed link, and the
//! redemption of that link.

use crate::auth::util::{
    check_header, flow_expires, flow_expiry, header_verdict, header_view, seal, sealed_claims,
};
use crate::clock::unix_now;
use crate::codec::{verified_claims, verify, SigningKey};
use crate::config::Config;
use crate::email::{compose, mail_of, mail_view, ClientInfo, EmailParams, EmailParamsView};
use crate::entity::users::{Model, Stored, UserView, Users};
use crate::ids::{format_uuid, parse_uuid, uuid_text, uuid_value};
use crate::response::{
    Failure, Reply, ReplyView, STATUS_BAD_REQUEST, STATUS_GONE, STATUS_NOT_FOUND, STATUS_OK,
};
use crate::text::join;
use crate::token::{decoded, TokenClaims, TokenClaimsView};
use vstd::prelude::*;

verus! {

/// The body of a request for a verification mail.
pub struct VerifyBody {
    /// Where to send the user once the address is verified.
    pub next_url: String,
}

/// The verification token that is minted for a user at the time `now`;
/// `None` where the expiry does not fit the clock's range or the token
/// cannot be signed.
pub open spec fn verification_token(uid: u128, next: Seq<char>, key: Seq<u8>, now: i64) -> Option<
    Seq<char>,
> {
    match flow_expiry(now) {
        None => None,
        Some(exp) => sealed_claims(
            TokenClaimsView::EmailVerification { uid: uuid_text(uid), exp, next },
            key,
        ),
    }
}

/// The reply to a request for a verification mail at the time `now`, and
/// the mail to send.
pub open spec fn verification_requested(
    users: Map<u128, UserView>,
    config: Config,
    header: Option<Seq<u8>>,
    body: VerifyBody,
    client: Option<ClientInfo>,
    now: i64,
) -> (ReplyView, Option<EmailParamsView>) {
    match header_verdict(header, config.secret_key@, now) {
        Err(e) => (e.refusal(), None),
        Ok(uid) => if !users.contains_key(uid) {
            (Failure::UserAbsent.refusal(), None)
        } else if users[uid].email_verified {
            (Failure::AlreadyVerified.refusal(), None)
        } else if !config.mail_configured() {
            (Failure::EmailNotConfigured.refusal(), None)
        } else {
            match verification_token(uid, body.next_url@, config.secret_key@, now) {
                None => (Failure::Internal.refusal(), None),
                Some(token) => (
                    ReplyView::Empty(STATUS_OK),
                    Some(
                        mail_view(
                            config.email->0,
                            users[uid].email,
                            users[uid].email,
                            config.base_url@ + "/api/auth/user/verify-email/"@ + token,
                            config.email->0.confirmation_subject@,
                            client,
                        ),
                    ),
                ),
            }
        },
    }
}

/// Answers a request for a verification mail at a given time, and says
/// which mail to send.
pub fn send_handler_at(
    users: &Users,
    config: &Config,
    auth_header: Option<&[u8]>,
    body: &VerifyBody,
    client: &Option<ClientInfo>,
    now: i64,
) -> (r: (Reply, Option<EmailParams>))
    ensures
        r.0@ == verification_requested(
            users@,
            *config,
            header_view(auth_header),
            *body,
            *client,
            now,
        ).0,
        mail_of(r.1) == verification_requested(
            users@,
            *config,
            header_view(auth_header),
            *body,
            *client,
            now,
        ).1,
{
    let uid = match check_header(auth_header, &config.secret_key, now) {
        Ok(uid) => uid,
        Err(e) => {
            return (e.refuse(), None);
        },
    };
    let user = match users.find_by_id(uid) {
        Some(user) => user,
        None => {
            return (Failure::UserAbsent.refuse(), None);
        },
    };
    if user.email_verified {
        return (Failure::AlreadyVerified.refuse(), None);
    }
    if !config.can_send_mail() {
        return (Failure::EmailNotConfigured.refuse(), None);
    }
    let email_config = match &config.email {
        Some(e) => e,
        None => {
            return (Failure::EmailNotConfigured.refuse(), None);
        },
    };
    let exp = match flow_expires(now) {
        Some(exp) => exp,
        None => {
            return (Failure::Internal.refuse(), None);
        },
    };
    let claims = TokenClaims::EmailVerification {
        uid: format_uuid(user.uid),
        exp,
        next: body.next_url.clone(),
    };
    let token = match seal(&claims, &config.secret_key) {
        Some(t) => t,
        None => {
            return (Failure::Internal.refuse(), None);
        },
    };
    let link = join(
        join(config.base_url.as_str(), "/api/auth/user/verify-email/").as_str(),
        token.as_str(),
    );
    let mail = compose(
        email_config,
        user.email.as_str(),
        user.email.as_str(),
        link,
        email_config.confirmation_subject.as_str(),
        client,
    );
    (Reply::Empty(STATUS_OK), Some(mail))
}

/// Answers a request for a verification mail at the time the clock shows.
pub fn send_handler(
    users: &Users,
    config: &Config,
    auth_header: Option<&[u8]>,
    body: &VerifyBody,
    client: &Option<ClientInfo>,
) -> (r: (Reply, Option<EmailParams>))
    ensures
        exists|now: i64|
            {
                let outcome = #[trigger] verification_requested(
                    users@,
                    *config,
                    header_view(auth_header),
                    *body,
                    *client,
                    now,
                );
                r.0@ == outcome.0 && mail_of(r.1) == outcome.1
            },
{
    let now = unix_now();
    send_handler_at(users, config, auth_header, body, client, now)
}

/// The user whose address a verification token confirms at the time `now`,
/// and where to send the user next; or the status to answer with: 410 for a
/// token that has expired, 400 for any other that is not good.
pub open spec fn verification_subject(token: Seq<char>, key: Seq<u8>, now: i64) -> Result<
    (u128, Seq<char>),
    u16,
> {
    match verified_claims(token, key) {
        None => Err(STATUS_BAD_REQUEST),
        Some(claims) => match decoded(claims) {
            Ok(TokenClaimsView::EmailVerification { uid, exp, next }) => if now > exp {
                Err(STATUS_GONE)
            } else {
                match uuid_value(uid) {
                    None => Err(STATUS_BAD_REQUEST),
                    Some(id) => Ok((id, next)),
                }
            },
            _ => Err(STATUS_BAD_REQUEST),
        },
    }
}

/// What redeeming a verification token does to the table of users, and what
/// it answers, at the time `now`: the user's address is marked as verified,
/// and the user is sent on. Redeeming the token again changes nothing more.
pub open spec fn verified(users: Map<u128, UserView>, token: Seq<char>, key: Seq<u8>, now: i64) -> (
    Map<u128, UserView>,
    ReplyView,
) {
    match verification_subject(token, key, now) {
        Err(status) => (users, ReplyView::Empty(status)),
        Ok((uid, next)) => if !users.contains_key(uid) {
            (users, ReplyView::Empty(STATUS_NOT_FOUND))
        } else {
            (
                users.insert(uid, UserView { email_verified: true, ..users[uid] }),
                ReplyView::Redirect(next + "/?verified=true"@),
            )
        },
    }
}

/// Finds the user whose address a verification token confirms.
pub fn check_verification_token(token: &str, key: &SigningKey, now: i64) -> (r: Result<
    (u128, String),
    u16,
>)
    ensures
        match r {
            Ok(s) => verification_subject(token@, key@, now) == Ok::<(u128, Seq<char>), u16>(
                (s.0, s.1@),
            ),
            Err(status) => verification_subject(token@, key@, now) == Err::<(u128, Seq<char>), u16>(
                status,
            ),
        },
{
    let claims = match verify(token, key) {
        Ok(c) => c,
        Err(_) => {
            return Err(STATUS_BAD_REQUEST);
        },
    };
    match TokenClaims::decode(&claims) {
        Ok(TokenClaims::EmailVerification { uid, exp, next }) => {
            if now > exp {
                return Err(STATUS_GONE);
            }
            match parse_uuid(uid.as_str()) {
                Some(id) => Ok((id, next)),
                None => Err(STATUS_BAD_REQUEST),
            }
        },
        _ => Err(STATUS_BAD_REQUEST),
    }
}

/// Redeems a verification token at a given time.
pub fn receive_handler_at(users: &mut Users, key: &SigningKey, token: &str, now: i64) -> (r: Reply)
    ensures
        final(users)@ == verified(old(users)@, token@, key@, now).0,
        r@ == verified(old(users)@, token@, key@, now).1,
{
    let (uid, next) = match check_verification_token(token, key, now) {
        Ok(s) => s,
        Err(status) => {
            return Reply::Empty(status);
        },
    };
    let user = match users.find_by_id(uid) {
        Some(user) => user,
        None => {
            return Reply::Empty(STATUS_NOT_FOUND);
        },
    };
    let verified_user = Model {
        uid: user.uid,
        email: user.email,
        password: user.password,
        created_at: user.created_at,
        updated_at: user.updated_at,
        last_login: user.last_login,
        active: user.active,
        metadata: user.metadata,
        email_verified: true,
        is_admin: user.is_admin,
    };
    users.attest();
    assert(!crate::entity::users::email_taken_by_other(users@, uid, verified_user.email@));
    let stored = users.update(verified_user);
    assert(stored == Stored::Done);
    Reply::Redirect(join(next.as_str(), "/?verified=true"))
}

/// Redeems a verification token at the time the clock shows.
pub fn receive_handler(users: &mut Users, key: &SigningKey, token: &str) -> (r: Reply)
    ensures
        exists|now: i64|
            {
                let outcome = #[trigger] verified(old(users)@, token@, key@, now);
                final(users)@ == outcome.0 && r@ == outcome.1
            },
{
    let now = unix_now();
    receive_handler_at(users, key, token, now)
}

} // verus!
