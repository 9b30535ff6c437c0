//! The commands of the diagnostics channel.
//!
//! A client first shows an access token with `auth <token>`; after that,
//! `sysinfo` is answered with the machine's figures.

use crate::claims::ClaimSet;
use crate::clock::unix_now;
use crate::codec::{verified_claims, verify, SigningKey};
use crate::text::{chars_of, same_text, split_whitespace, texts, words};
use crate::token::{decoded, TokenClaims, TokenClaimsView};
use vstd::prelude::*;

verus! {

/// The state of one connection.
#[derive(Clone, Copy, Debug)]
pub struct WSData {
    /// Whether the client has shown a good access token.
    pub auth: bool,
}

/// What to send back for a command.
#[derive(Clone, Copy, Debug, PartialEq, Eq, Structural)]
pub enum Answer {
    /// `ok`: the client is now authorized.
    Accepted,
    /// `invalid key`: the token is not one that this service signed.
    InvalidKey,
    /// `not authorized`.
    NotAuthorized,
    /// The machine's figures.
    Sysinfo,
    /// `unknown command`.
    UnknownCommand,
}

impl Answer {
    /// Whether the connection is closed after the answer.
    pub open spec fn closes(self) -> bool {
        self == Answer::InvalidKey || self == Answer::NotAuthorized
    }

    /// Tests whether the connection is closed after the answer.
    pub fn is_fatal(self) -> (r: bool)
        ensures
            r == self.closes(),
    {
        match self {
            Answer::InvalidKey | Answer::NotAuthorized => true,
            _ => false,
        }
    }

    /// The text of the answer; that of `Sysinfo` is written by the caller.
    pub open spec fn text(self) -> Seq<char> {
        match self {
            Answer::Accepted => "ok"@,
            Answer::InvalidKey => "invalid key"@,
            Answer::NotAuthorized => "not authorized"@,
            Answer::Sysinfo => Seq::empty(),
            Answer::UnknownCommand => "unknown command"@,
        }
    }

    /// The text of the answer.
    pub fn to_text(self) -> (r: String)
        ensures
            r@ == self.text(),
    {
        match self {
            Answer::Accepted => "ok".to_string(),
            Answer::InvalidKey => "invalid key".to_string(),
            Answer::NotAuthorized => "not authorized".to_string(),
            Answer::Sysinfo => String::new(),
            Answer::UnknownCommand => "unknown command".to_string(),
        }
    }
}

/// Whether the claims of an authentic token let a client onto the channel
/// at the time `now`: those of an access token that expires later.
pub open spec fn opens_channel(claims: Map<Seq<char>, Seq<char>>, now: i64) -> bool {
    decoded(claims) matches Ok(TokenClaimsView::Access { exp, .. }) && now < exp
}

/// Whether the connection is authorized after the command `msg`, and the
/// answer to it, at the time `now`.
pub open spec fn command_outcome(authorized: bool, msg: Seq<char>, key: Seq<u8>, now: i64) -> (
    bool,
    Answer,
) {
    let parts = words(msg);
    if parts.len() >= 1 && parts[0] == "auth"@ {
        if parts.len() < 2 {
            (authorized, Answer::NotAuthorized)
        } else {
            match verified_claims(parts[1], key) {
                None => (authorized, Answer::InvalidKey),
                Some(claims) => if opens_channel(claims, now) {
                    (true, Answer::Accepted)
                } else {
                    (authorized, Answer::NotAuthorized)
                },
            }
        }
    } else if msg == "sysinfo"@ {
        if authorized {
            (authorized, Answer::Sysinfo)
        } else {
            (authorized, Answer::NotAuthorized)
        }
    } else {
        (authorized, Answer::UnknownCommand)
    }
}

/// Tests whether the claims of an authentic token let a client onto the
/// channel.
pub fn check_channel_claims(claims: &ClaimSet, now: i64) -> (r: bool)
    ensures
        r == opens_channel(claims@, now),
{
    match TokenClaims::decode(claims) {
        Ok(TokenClaims::Access { exp, .. }) => now < exp,
        _ => false,
    }
}

/// Handles one command at a given time.
pub fn handle_command_at(data: &mut WSData, msg: &str, secret_key: &SigningKey, now: i64) -> (r:
    Answer)
    ensures
        final(data).auth == command_outcome(old(data).auth, msg@, secret_key@, now).0,
        r == command_outcome(old(data).auth, msg@, secret_key@, now).1,
{
    let chars = chars_of(msg);
    let parts = split_whitespace(&chars);
    if parts.len() >= 1 {
        assert(texts(parts@)[0] == parts@[0]@);
        if same_text(parts[0].as_str(), "auth") {
            if parts.len() < 2 {
                return Answer::NotAuthorized;
            }
            assert(texts(parts@)[1] == parts@[1]@);
            return match verify(parts[1].as_str(), secret_key) {
                Err(_) => Answer::InvalidKey,
                Ok(claims) => if check_channel_claims(&claims, now) {
                    data.auth = true;
                    Answer::Accepted
                } else {
                    Answer::NotAuthorized
                },
            };
        }
    }
    if same_text(msg, "sysinfo") {
        if data.auth {
            Answer::Sysinfo
        } else {
            Answer::NotAuthorized
        }
    } else {
        Answer::UnknownCommand
    }
}

/// Handles one command at the time the clock shows.
pub fn handle_command(data: &mut WSData, msg: &str, secret_key: &SigningKey) -> (r: Answer)
    ensures
        exists|now: i64|
            {
                let outcome = #[trigger] command_outcome(old(data).auth, msg@, secret_key@, now);
                final(data).auth == outcome.0 && r == outcome.1
            },
{
    let now = unix_now();
    handle_command_at(data, msg, secret_key, now)
}

} // verus!
