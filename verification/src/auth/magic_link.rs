//! Logging in, or signing up, by a signed link that is sent by mail.

use crate::auth::util::{
    flow_expires, flow_expiry, issue_pair, issued, seal, sealed_claims, NONCE_LENGTH,
};
use crate::clock::unix_now;
use crate::codec::{verified_claims, verify, SigningKey};
use crate::config::Config;
use crate::decimal::{decimal, format_i64};
use crate::email::{compose, mail_of, mail_view, ClientInfo, EmailParams, EmailParamsView};
use crate::entity::refresh_tokens::{RefreshTokens, Row};
use crate::entity::users::{by_email, no_password, Model, Stored, UserView, Users};
use crate::ids::{format_uuid, parse_uuid, random_uuid, uuid_text, uuid_value};
use crate::random::{all_alphanumeric, random_text};
use crate::response::{Failure, Reply, ReplyView, STATUS_OK};
use crate::text::{contains_char, join, string_of};
use crate::token::{decoded, TokenClaims, TokenClaimsView};
use vstd::prelude::*;

verus! {

/// The body of a request for a magic link.
pub struct MagicBody {
    /// Where to send the user once logged in.
    pub next_url: String,
    pub email: String,
    /// Whether the link is to create the user.
    pub sign_up: bool,
}

/// The record of a user that is created for a magic link: it has no
/// password, and its address is not yet verified.
pub open spec fn passwordless_user(email: Seq<char>, uid: u128, now: i64) -> UserView {
    UserView {
        uid,
        email,
        password: no_password(),
        created_at: now,
        updated_at: now,
        last_login: None,
        active: true,
        metadata: None,
        email_verified: false,
        is_admin: false,
    }
}

/// The magic-link token that is minted for a user at the time `now`;
/// `None` where the expiry does not fit the clock's range or the token
/// cannot be signed.
pub open spec fn magic_token(uid: u128, next: Seq<char>, key: Seq<u8>, now: i64) -> Option<
    Seq<char>,
> {
    match flow_expiry(now) {
        None => None,
        Some(exp) => sealed_claims(TokenClaimsView::MagicLink { uid: uuid_text(uid), exp, next }, key),
    }
}

/// The table of users after a request for a magic link, the reply, and the
/// mail to send.
pub ghost struct MagicOutcome {
    pub users: Map<u128, UserView>,
    pub reply: ReplyView,
    pub mail: Option<EmailParamsView>,
}

/// What a request for a magic link does, and what it answers, at the time
/// `now`; `uid` is the id for a user that is created.
///
/// A link to sign up is refused where the address has a user, and a link
/// to log in where it has none.
pub open spec fn magic_requested(
    users: Map<u128, UserView>,
    config: Config,
    body: MagicBody,
    client: Option<ClientInfo>,
    uid: u128,
    now: i64,
) -> MagicOutcome {
    if !config.mail_configured() {
        MagicOutcome { users, reply: Failure::EmailNotConfigured.refusal(), mail: None }
    } else {
        let found = by_email(users, body.email@);
        if found is Some && body.sign_up {
            MagicOutcome { users, reply: Failure::UserAlreadyExists.refusal(), mail: None }
        } else if found is None && !body.sign_up {
            MagicOutcome { users, reply: Failure::UserDoesNotExist.refusal(), mail: None }
        } else if found is None && users.contains_key(uid) {
            MagicOutcome { users, reply: Failure::Internal.refusal(), mail: None }
        } else {
            let user = match found {
                Some(user) => user,
                None => passwordless_user(body.email@, uid, now),
            };
            let after = users.insert(user.uid, user);
            match magic_token(user.uid, body.next_url@, config.secret_key@, now) {
                None => MagicOutcome { users: after, reply: Failure::Internal.refusal(), mail: None },
                Some(token) => MagicOutcome {
                    users: after,
                    reply: ReplyView::Empty(STATUS_OK),
                    mail: Some(
                        mail_view(
                            config.email->0,
                            user.email,
                            user.email,
                            config.base_url@ + "/api/auth/user/magic-link/"@ + token,
                            config.email->0.confirmation_subject@,
                            client,
                        ),
                    ),
                },
            }
        }
    }
}

/// Answers a request for a magic link, given the time and the id for a user
/// that is created, and says which mail to send.
pub fn post_handler_with(
    users: &mut Users,
    config: &Config,
    body: &MagicBody,
    client: &Option<ClientInfo>,
    uid: u128,
    now: i64,
) -> (r: (Reply, Option<EmailParams>))
    ensures
        ({
            let outcome = magic_requested(old(users)@, *config, *body, *client, uid, now);
            &&& final(users)@ == outcome.users
            &&& r.0@ == outcome.reply
            &&& mail_of(r.1) == outcome.mail
        }),
{
    if !config.can_send_mail() {
        return (Failure::EmailNotConfigured.refuse(), None);
    }
    let email_config = match &config.email {
        Some(e) => e,
        None => {
            return (Failure::EmailNotConfigured.refuse(), None);
        },
    };
    users.attest();
    let user = match users.find_by_email(body.email.as_str()) {
        Some(user) => {
            if body.sign_up {
                return (Failure::UserAlreadyExists.refuse(), None);
            }
            assert(users@.insert(user.uid, user@) =~= users@);
            user
        },
        None => {
            if !body.sign_up {
                return (Failure::UserDoesNotExist.refuse(), None);
            }
            let created = Model {
                uid,
                email: body.email.clone(),
                password: "0".to_string(),
                created_at: now,
                updated_at: now,
                last_login: None,
                active: true,
                metadata: None,
                email_verified: false,
                is_admin: false,
            };
            let copy = created.copy();
            match users.insert(created) {
                Stored::Done => copy,
                _ => {
                    return (Failure::Internal.refuse(), None);
                },
            }
        },
    };
    let exp = match flow_expires(now) {
        Some(exp) => exp,
        None => {
            return (Failure::Internal.refuse(), None);
        },
    };
    let claims = TokenClaims::MagicLink {
        uid: format_uuid(user.uid),
        exp,
        next: body.next_url.clone(),
    };
    let token = match seal(&claims, &config.secret_key) {
        Some(t) => t,
        None => {
            return (Failure::Internal.refuse(), None);
        },
    };
    let link = join(
        join(config.base_url.as_str(), "/api/auth/user/magic-link/").as_str(),
        token.as_str(),
    );
    let mail = compose(
        email_config,
        user.email.as_str(),
        user.email.as_str(),
        link,
        email_config.confirmation_subject.as_str(),
        client,
    );
    (Reply::Empty(STATUS_OK), Some(mail))
}

/// Answers a request for a magic link.
///
/// The time is read from the clock and the id for a new user is drawn
/// here: the result is that of `post_handler_with` for some such values.
pub fn post_handler(
    users: &mut Users,
    config: &Config,
    body: &MagicBody,
    client: &Option<ClientInfo>,
) -> (r: (Reply, Option<EmailParams>))
    ensures
        exists|uid: u128, now: i64|
            {
                let outcome = #[trigger] magic_requested(
                    old(users)@,
                    *config,
                    *body,
                    *client,
                    uid,
                    now,
                );
                &&& final(users)@ == outcome.users
                &&& r.0@ == outcome.reply
                &&& mail_of(r.1) == outcome.mail
            },
{
    let uid = random_uuid();
    let now = unix_now();
    post_handler_with(users, config, body, client, uid, now)
}

/// The user that a magic link logs in at the time `now`, as the id text of
/// its token and its value, and where to send the user next.
pub open spec fn magic_subject(token: Seq<char>, key: Seq<u8>, now: i64) -> Result<
    (Seq<char>, u128, Seq<char>),
    Failure,
> {
    match verified_claims(token, key) {
        None => Err(Failure::TokenUnreadable),
        Some(claims) => match decoded(claims) {
            Ok(TokenClaimsView::MagicLink { uid, exp, next }) => if now > exp {
                Err(Failure::TokenExpired)
            } else {
                match uuid_value(uid) {
                    None => Err(Failure::TokenInvalid),
                    Some(id) => Ok((uid, id, next)),
                }
            },
            _ => Err(Failure::TokenInvalid),
        },
    }
}

/// The address that a user is sent to with a new token pair: `next`, with
/// the user's id, the two tokens and the access token's expiry as query
/// parameters. They follow a `?`, or a `&` where `next` has a query
/// already.
pub open spec fn redirect_url(
    next: Seq<char>,
    uid: Seq<char>,
    access: Seq<char>,
    refresh: Seq<char>,
    expiry: i64,
) -> Seq<char> {
    next + (if next.contains('?') {
        "&"@
    } else {
        "?"@
    }) + "uid="@ + uid + "&at="@ + access + "&rt="@ + refresh + "&exp="@ + decimal(expiry as int)
}

/// What following a magic link does to the table of refresh tokens, and
/// what it answers, at the time `now`; `nonce` is the random part of the
/// refresh token that is issued.
pub open spec fn magic_redeemed(
    users: Map<u128, UserView>,
    tokens: Map<Seq<char>, Row>,
    key: Seq<u8>,
    token: Seq<char>,
    now: i64,
    nonce: Seq<char>,
) -> (Map<Seq<char>, Row>, ReplyView) {
    match magic_subject(token, key, now) {
        Err(f) => (tokens, f.refusal()),
        Ok((uid, id, next)) => if !users.contains_key(id) {
            (tokens, Failure::UserDoesNotExist.refusal())
        } else {
            let (kept, outcome) = issued(tokens, uuid_text(id), key, now, nonce, false);
            match outcome {
                Err(_) => (kept, Failure::Internal.refusal()),
                Ok(pair) => (
                    kept,
                    ReplyView::Redirect(
                        redirect_url(
                            next,
                            uuid_text(id),
                            pair.access_token,
                            pair.refresh_token,
                            pair.expiry,
                        ),
                    ),
                ),
            }
        },
    }
}

/// Finds the user that a magic link logs in.
pub fn check_magic_token(token: &str, key: &SigningKey, now: i64) -> (r: Result<
    (String, u128, String),
    Failure,
>)
    ensures
        match r {
            Ok(s) => magic_subject(token@, key@, now) == Ok::<(Seq<char>, u128, Seq<char>), Failure>(
                (s.0@, s.1, s.2@),
            ),
            Err(f) => magic_subject(token@, key@, now) == Err::<
                (Seq<char>, u128, Seq<char>),
                Failure,
            >(f),
        },
{
    let claims = match verify(token, key) {
        Ok(c) => c,
        Err(_) => {
            return Err(Failure::TokenUnreadable);
        },
    };
    match TokenClaims::decode(&claims) {
        Ok(TokenClaims::MagicLink { uid, exp, next }) => {
            if now > exp {
                return Err(Failure::TokenExpired);
            }
            match parse_uuid(uid.as_str()) {
                Some(id) => Ok((uid, id, next)),
                None => Err(Failure::TokenInvalid),
            }
        },
        _ => Err(Failure::TokenInvalid),
    }
}

/// Writes the address that a user is sent to with a new token pair.
pub fn write_redirect_url(next: &str, uid: &str, access: &str, refresh: &str, expiry: i64) -> (r:
    String)
    ensures
        r@ == redirect_url(next@, uid@, access@, refresh@, expiry),
{
    let mut url = next.to_string();
    if contains_char(next, '?') {
        url.append("&");
    } else {
        url.append("?");
    }
    url.append("uid=");
    url.append(uid);
    url.append("&at=");
    url.append(access);
    url.append("&rt=");
    url.append(refresh);
    url.append("&exp=");
    let exp_text = string_of(&format_i64(expiry));
    url.append(exp_text.as_str());
    url
}

/// Follows a magic link at a given time; `nonce` is the random part of the
/// refresh token that is issued.
pub fn get_handler_at(
    users: &Users,
    tokens: &mut RefreshTokens,
    key: &SigningKey,
    token: &str,
    now: i64,
    nonce: &str,
) -> (r: Reply)
    ensures
        final(tokens)@ == magic_redeemed(users@, old(tokens)@, key@, token@, now, nonce@).0,
        r@ == magic_redeemed(users@, old(tokens)@, key@, token@, now, nonce@).1,
{
    let (_uid, id, next) = match check_magic_token(token, key, now) {
        Ok(s) => s,
        Err(f) => {
            return f.refuse();
        },
    };
    let user = match users.find_by_id(id) {
        Some(user) => user,
        None => {
            return Failure::UserDoesNotExist.refuse();
        },
    };
    let uid_text = format_uuid(user.uid);
    match issue_pair(tokens, uid_text.as_str(), key, now, nonce, false) {
        Ok(pair) => Reply::Redirect(
            write_redirect_url(
                next.as_str(),
                uid_text.as_str(),
                pair.access_token.as_str(),
                pair.refresh_token.as_str(),
                pair.expiry,
            ),
        ),
        Err(_) => Failure::Internal.refuse(),
    }
}

/// Follows a magic link.
///
/// The time is read from the clock and the refresh token's random part is
/// drawn here: the result is that of `get_handler_at` for some time and some
/// text of `NONCE_LENGTH` letters and digits.
pub fn get_handler(users: &Users, tokens: &mut RefreshTokens, key: &SigningKey, token: &str) -> (r:
    Reply)
    ensures
        exists|now: i64, nonce: Seq<char>|
            {
                let outcome = #[trigger] magic_redeemed(
                    users@,
                    old(tokens)@,
                    key@,
                    token@,
                    now,
                    nonce,
                );
                &&& nonce.len() == NONCE_LENGTH
                &&& all_alphanumeric(nonce)
                &&& final(tokens)@ == outcome.0
                &&& r@ == outcome.1
            },
{
    let now = unix_now();
    let nonce = random_text(NONCE_LENGTH);
    get_handler_at(users, tokens, key, token, now, nonce.as_str())
}

} // verus!
