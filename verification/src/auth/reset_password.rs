//! Asking for a password-reset token by mail.
//!
//! The answer is the same whether or not the address belongs to a user, so
//! that it tells nothing of who has an account.

use crate::auth::util::{flow_expires, flow_expiry, seal, sealed_claims};
use crate::clock::unix_now;
use crate::config::Config;
use crate::email::{compose, mail_of, mail_view, ClientInfo, EmailParams, EmailParamsView};
use crate::entity::refresh_tokens::{Model, RefreshTokens, Row};
use crate::entity::users::{by_email, UserView, Users};
use crate::ids::{format_uuid, uuid_text};
use crate::response::{Failure, Reply, ReplyView, STATUS_OK};
use crate::text::join;
use crate::token::{TokenClaims, TokenClaimsView};
use vstd::prelude::*;

verus! {

/// The body of a request for a password-reset mail.
pub struct ResetPasswordRequest {
    pub email: String,
    /// The page that the mail links to; the token is added as its `token`
    /// parameter.
    pub reset_url: String,
}

/// The table of reset tokens after a request, the reply, and the mail to
/// send.
pub ghost struct ResetOutcome {
    pub resets: Map<Seq<char>, Row>,
    pub reply: ReplyView,
    pub mail: Option<EmailParamsView>,
}

/// The reset token that is minted for a user at the time `now`, with its
/// expiry; `None` where the expiry does not fit the clock's range or the
/// token cannot be signed.
pub open spec fn reset_token(uid: u128, key: Seq<u8>, now: i64) -> Option<(Seq<char>, i64)> {
    match flow_expiry(now) {
        None => None,
        Some(exp) => match sealed_claims(
            TokenClaimsView::PasswordReset { uid: uuid_text(uid), exp },
            key,
        ) {
            Some(token) => Some((token, exp)),
            None => None,
        },
    }
}

/// What a request for a password-reset mail does, and what it answers, at
/// the time `now`.
///
/// Where the address belongs to a user, a reset token for that user is
/// minted, its record is kept, and a mail with the link is asked for.
pub open spec fn reset_requested(
    users: Map<u128, UserView>,
    resets: Map<Seq<char>, Row>,
    config: Config,
    body: ResetPasswordRequest,
    client: Option<ClientInfo>,
    now: i64,
) -> ResetOutcome {
    if !config.mail_configured() {
        ResetOutcome { resets, reply: Failure::EmailNotConfigured.refusal(), mail: None }
    } else {
        match by_email(users, body.email@) {
            None => ResetOutcome { resets, reply: ReplyView::Empty(STATUS_OK), mail: None },
            Some(user) => match reset_token(user.uid, config.secret_key@, now) {
                None => ResetOutcome { resets, reply: Failure::Internal.refusal(), mail: None },
                Some((token, exp)) => ResetOutcome {
                    resets: if resets.contains_key(token) {
                        resets
                    } else {
                        resets.insert(token, Row { uid: user.uid, expiry: exp, used: false })
                    },
                    reply: ReplyView::Empty(STATUS_OK),
                    mail: Some(
                        mail_view(
                            config.email->0,
                            body.email@,
                            user.email,
                            body.reset_url@ + "?token="@ + token,
                            config.email->0.forgot_password_subject@,
                            client,
                        ),
                    ),
                },
            },
        }
    }
}

/// Answers a request for a password-reset mail at a given time, and says
/// which mail to send.
pub fn handler_at(
    users: &Users,
    resets: &mut RefreshTokens,
    config: &Config,
    body: &ResetPasswordRequest,
    client: &Option<ClientInfo>,
    now: i64,
) -> (r: (Reply, Option<EmailParams>))
    ensures
        ({
            let outcome = reset_requested(users@, old(resets)@, *config, *body, *client, now);
            &&& final(resets)@ == outcome.resets
            &&& r.0@ == outcome.reply
            &&& mail_of(r.1) == outcome.mail
        }),
{
    if !config.can_send_mail() {
        return (Failure::EmailNotConfigured.refuse(), None);
    }
    let email_config = match &config.email {
        Some(e) => e,
        None => {
            return (Failure::EmailNotConfigured.refuse(), None);
        },
    };
    let user = match users.find_by_email(body.email.as_str()) {
        Some(user) => user,
        None => {
            return (Reply::Empty(STATUS_OK), None);
        },
    };
    let exp = match flow_expires(now) {
        Some(exp) => exp,
        None => {
            return (Failure::Internal.refuse(), None);
        },
    };
    let claims = TokenClaims::PasswordReset { uid: format_uuid(user.uid), exp };
    let token = match seal(&claims, &config.secret_key) {
        Some(t) => t,
        None => {
            return (Failure::Internal.refuse(), None);
        },
    };
    let _new = resets.insert(
        Model { uid: user.uid, refresh_token: token.clone(), expiry: exp, used: false },
    );
    let link = join(join(body.reset_url.as_str(), "?token=").as_str(), token.as_str());
    let mail = compose(
        email_config,
        body.email.as_str(),
        user.email.as_str(),
        link,
        email_config.forgot_password_subject.as_str(),
        client,
    );
    (Reply::Empty(STATUS_OK), Some(mail))
}

/// Answers a request for a password-reset mail at the time the clock shows.
pub fn handler(
    users: &Users,
    resets: &mut RefreshTokens,
    config: &Config,
    body: &ResetPasswordRequest,
    client: &Option<ClientInfo>,
) -> (r: (Reply, Option<EmailParams>))
    ensures
        exists|now: i64|
            {
                let outcome = #[trigger] reset_requested(
                    users@,
                    old(resets)@,
                    *config,
                    *body,
                    *client,
                    now,
                );
                &&& final(resets)@ == outcome.resets
                &&& r.0@ == outcome.reply
                &&& mail_of(r.1) == outcome.mail
            },
{
    let now = unix_now();
    handler_at(users, resets, config, body, client, now)
}

} // verus!
