//! The claims of the service's tokens, by type.
//!
//! A token's claim set is decoded in two steps: its `type` says which kind
//! of token it is, and then the fields of that kind are read. What is read
//! can be trusted only once the kind and the expiry have been checked.

use crate::claims::ClaimSet;
use crate::decimal::{decimal, format_i64, lemma_parse_decimal, parse_i64, parsed_i64};
use crate::text::{chars_of, same_text, string_of};
use vstd::prelude::*;

verus! {

/// The claims of a token, by its type.
#[derive(Debug)]
pub enum TokenClaims {
    /// An access token: type `at`. That of an administrator also names the
    /// role.
    Access { uid: String, exp: i64, admin: bool },
    /// A refresh token: type `rt`. Its random part `rand` makes tokens of
    /// one user and one second differ.
    Refresh { uid: String, exp: i64, rand: String },
    /// A password-reset token: type `password_reset`.
    PasswordReset { uid: String, exp: i64 },
    /// A magic link: type `magic-link`, with the address to send the user
    /// to.
    MagicLink { uid: String, exp: i64, next: String },
    /// An email verification: type `email-verification`, with the address
    /// to send the user to.
    EmailVerification { uid: String, exp: i64, next: String },
}

/// Typed claims as contracts speak of them.
pub ghost enum TokenClaimsView {
    Access { uid: Seq<char>, exp: i64, admin: bool },
    Refresh { uid: Seq<char>, exp: i64, rand: Seq<char> },
    PasswordReset { uid: Seq<char>, exp: i64 },
    MagicLink { uid: Seq<char>, exp: i64, next: Seq<char> },
    EmailVerification { uid: Seq<char>, exp: i64, next: Seq<char> },
}

impl View for TokenClaims {
    type V = TokenClaimsView;

    open spec fn view(&self) -> TokenClaimsView {
        match *self {
            TokenClaims::Access { uid, exp, admin } => TokenClaimsView::Access {
                uid: uid@,
                exp,
                admin,
            },
            TokenClaims::Refresh { uid, exp, rand } => TokenClaimsView::Refresh {
                uid: uid@,
                exp,
                rand: rand@,
            },
            TokenClaims::PasswordReset { uid, exp } => TokenClaimsView::PasswordReset {
                uid: uid@,
                exp,
            },
            TokenClaims::MagicLink { uid, exp, next } => TokenClaimsView::MagicLink {
                uid: uid@,
                exp,
                next: next@,
            },
            TokenClaims::EmailVerification { uid, exp, next } => TokenClaimsView::EmailVerification {
                uid: uid@,
                exp,
                next: next@,
            },
        }
    }
}

impl TokenClaimsView {
    /// The `type` of the token.
    pub open spec fn tag(self) -> Seq<char> {
        match self {
            TokenClaimsView::Access { .. } => "at"@,
            TokenClaimsView::Refresh { .. } => "rt"@,
            TokenClaimsView::PasswordReset { .. } => "password_reset"@,
            TokenClaimsView::MagicLink { .. } => "magic-link"@,
            TokenClaimsView::EmailVerification { .. } => "email-verification"@,
        }
    }

    /// The id text of the user that the token stands for.
    pub open spec fn subject(self) -> Seq<char> {
        match self {
            TokenClaimsView::Access { uid, .. } => uid,
            TokenClaimsView::Refresh { uid, .. } => uid,
            TokenClaimsView::PasswordReset { uid, .. } => uid,
            TokenClaimsView::MagicLink { uid, .. } => uid,
            TokenClaimsView::EmailVerification { uid, .. } => uid,
        }
    }

    /// When the token expires, in seconds since the Unix epoch.
    pub open spec fn expiry(self) -> i64 {
        match self {
            TokenClaimsView::Access { exp, .. } => exp,
            TokenClaimsView::Refresh { exp, .. } => exp,
            TokenClaimsView::PasswordReset { exp, .. } => exp,
            TokenClaimsView::MagicLink { exp, .. } => exp,
            TokenClaimsView::EmailVerification { exp, .. } => exp,
        }
    }
}

/// Why a claim set is not that of one of the service's tokens.
#[derive(Clone, Copy, Debug, PartialEq, Eq, Structural)]
pub enum DecodeError {
    /// The `type` is missing, or is none that the service issues.
    UnknownType,
    /// A claim that every token of the type carries is missing or cannot
    /// be read.
    Malformed,
}

/// The number that a claim holds, where the claim is there and is a number
/// in decimal notation.
pub open spec fn claim_number(claims: Map<Seq<char>, Seq<char>>, key: Seq<char>) -> Option<i64> {
    if claims.contains_key(key) {
        parsed_i64(claims[key])
    } else {
        None
    }
}

/// The text that a claim holds, where the claim is there.
pub open spec fn claim_text(claims: Map<Seq<char>, Seq<char>>, key: Seq<char>) -> Option<
    Seq<char>,
> {
    if claims.contains_key(key) {
        Some(claims[key])
    } else {
        None
    }
}

/// The claims that every token carries: the issuer, the type, the user
/// and the expiry.
pub open spec fn base_claims(tag: Seq<char>, uid: Seq<char>, exp: i64) -> Map<
    Seq<char>,
    Seq<char>,
> {
    Map::<Seq<char>, Seq<char>>::empty().insert("iss"@, "TurboCore"@).insert("type"@, tag).insert(
        "uid"@,
        uid,
    ).insert("exp"@, decimal(exp as int))
}

/// The claim set that typed claims are written as.
pub open spec fn encoded(claims: TokenClaimsView) -> Map<Seq<char>, Seq<char>> {
    let base = base_claims(claims.tag(), claims.subject(), claims.expiry());
    match claims {
        TokenClaimsView::Access { admin, .. } => if admin {
            base.insert("role"@, "admin"@)
        } else {
            base
        },
        TokenClaimsView::Refresh { rand, .. } => base.insert("rand"@, rand),
        TokenClaimsView::PasswordReset { .. } => base,
        TokenClaimsView::MagicLink { next, .. } => base.insert("next"@, next),
        TokenClaimsView::EmailVerification { next, .. } => base.insert("next"@, next),
    }
}

/// The typed claims that a claim set is read as: first the type, then the
/// user and the expiry, then what tokens of the type carry besides.
pub open spec fn decoded(claims: Map<Seq<char>, Seq<char>>) -> Result<
    TokenClaimsView,
    DecodeError,
> {
    let tag = claim_text(claims, "type"@);
    let uid = claim_text(claims, "uid"@);
    let exp = claim_number(claims, "exp"@);
    if tag != Some("at"@) && tag != Some("rt"@) && tag != Some("password_reset"@) && tag != Some(
        "magic-link"@,
    ) && tag != Some("email-verification"@) {
        Err(DecodeError::UnknownType)
    } else if uid is None || exp is None {
        Err(DecodeError::Malformed)
    } else if tag == Some("at"@) {
        Ok(
            TokenClaimsView::Access {
                uid: uid->0,
                exp: exp->0,
                admin: claim_text(claims, "role"@) == Some("admin"@),
            },
        )
    } else if tag == Some("rt"@) {
        match claim_text(claims, "rand"@) {
            Some(rand) => Ok(TokenClaimsView::Refresh { uid: uid->0, exp: exp->0, rand }),
            None => Err(DecodeError::Malformed),
        }
    } else if tag == Some("password_reset"@) {
        Ok(TokenClaimsView::PasswordReset { uid: uid->0, exp: exp->0 })
    } else {
        match claim_text(claims, "next"@) {
            Some(next) => if tag == Some("magic-link"@) {
                Ok(TokenClaimsView::MagicLink { uid: uid->0, exp: exp->0, next })
            } else {
                Ok(TokenClaimsView::EmailVerification { uid: uid->0, exp: exp->0, next })
            },
            None => Err(DecodeError::Malformed),
        }
    }
}

/// The names of the claims differ from one another, and so do the types of
/// the tokens.
pub proof fn lemma_names_differ()
    ensures
        "iss"@ != "exp"@,
        "iss"@ != "uid"@,
        "iss"@ != "type"@,
        "iss"@ != "rand"@,
        "iss"@ != "role"@,
        "iss"@ != "next"@,
        "exp"@ != "uid"@,
        "exp"@ != "type"@,
        "exp"@ != "rand"@,
        "exp"@ != "role"@,
        "exp"@ != "next"@,
        "uid"@ != "type"@,
        "uid"@ != "rand"@,
        "uid"@ != "role"@,
        "uid"@ != "next"@,
        "type"@ != "rand"@,
        "type"@ != "role"@,
        "type"@ != "next"@,
        "rand"@ != "role"@,
        "rand"@ != "next"@,
        "role"@ != "next"@,
        "at"@ != "rt"@,
        "at"@ != "password_reset"@,
        "at"@ != "magic-link"@,
        "at"@ != "email-verification"@,
        "rt"@ != "password_reset"@,
        "rt"@ != "magic-link"@,
        "rt"@ != "email-verification"@,
        "password_reset"@ != "magic-link"@,
        "password_reset"@ != "email-verification"@,
        "magic-link"@ != "email-verification"@,
{
    reveal_strlit("iss");
    reveal_strlit("exp");
    reveal_strlit("uid");
    reveal_strlit("type");
    reveal_strlit("rand");
    reveal_strlit("role");
    reveal_strlit("next");
    reveal_strlit("at");
    reveal_strlit("rt");
    reveal_strlit("password_reset");
    reveal_strlit("magic-link");
    reveal_strlit("email-verification");
    assert("iss"@[0] != "exp"@[0]);
    assert("iss"@[0] != "uid"@[0]);
    assert("exp"@[0] != "uid"@[0]);
    assert("type"@[0] != "rand"@[0]);
    assert("type"@[0] != "role"@[0]);
    assert("type"@[0] != "next"@[0]);
    assert("rand"@[1] != "role"@[1]);
    assert("rand"@[0] != "next"@[0]);
    assert("role"@[0] != "next"@[0]);
    assert("at"@[0] != "rt"@[0]);
    assert("password_reset"@[0] != "magic-link"@[0]);
    assert("password_reset"@[0] != "email-verification"@[0]);
    assert("magic-link"@[0] != "email-verification"@[0]);
}

/// Typed claims are read back from the claim set they are written as.
pub proof fn lemma_decode_encode(claims: TokenClaimsView)
    ensures
        decoded(encoded(claims)) == Ok::<TokenClaimsView, DecodeError>(claims),
{
    lemma_names_differ();
    lemma_parse_decimal(claims.expiry());
    let m = encoded(claims);
    assert(claim_text(m, "type"@) == Some(claims.tag()));
    assert(claim_text(m, "uid"@) == Some(claims.subject()));
    assert(claim_number(m, "exp"@) == Some(claims.expiry()));
}

/// Reads the number that a claim holds.
pub fn read_claim_number(claims: &ClaimSet, key: &str) -> (r: Option<i64>)
    ensures
        r == claim_number(claims@, key@),
{
    match claims.get(key) {
        Some(v) => {
            let chars = chars_of(v.as_str());
            parse_i64(&chars)
        },
        None => None,
    }
}

impl TokenClaims {
    /// The id text of the user that the token stands for.
    pub fn uid(&self) -> (r: &String)
        ensures
            r@ == self@.subject(),
    {
        match self {
            TokenClaims::Access { uid, .. } => uid,
            TokenClaims::Refresh { uid, .. } => uid,
            TokenClaims::PasswordReset { uid, .. } => uid,
            TokenClaims::MagicLink { uid, .. } => uid,
            TokenClaims::EmailVerification { uid, .. } => uid,
        }
    }

    /// When the token expires.
    pub fn exp(&self) -> (r: i64)
        ensures
            r == self@.expiry(),
    {
        match self {
            TokenClaims::Access { exp, .. } => *exp,
            TokenClaims::Refresh { exp, .. } => *exp,
            TokenClaims::PasswordReset { exp, .. } => *exp,
            TokenClaims::MagicLink { exp, .. } => *exp,
            TokenClaims::EmailVerification { exp, .. } => *exp,
        }
    }

    fn tag_text(&self) -> (r: &'static str)
        ensures
            r@ == self@.tag(),
    {
        match self {
            TokenClaims::Access { .. } => "at",
            TokenClaims::Refresh { .. } => "rt",
            TokenClaims::PasswordReset { .. } => "password_reset",
            TokenClaims::MagicLink { .. } => "magic-link",
            TokenClaims::EmailVerification { .. } => "email-verification",
        }
    }

    /// Writes the claims as a claim set.
    pub fn encode(&self) -> (r: ClaimSet)
        ensures
            r@ == encoded(self@),
    {
        let exp_text = string_of(&format_i64(self.exp()));
        let mut claims = ClaimSet::new();
        claims.insert("iss", "TurboCore");
        claims.insert("type", self.tag_text());
        claims.insert("uid", self.uid().as_str());
        claims.insert("exp", exp_text.as_str());
        match self {
            TokenClaims::Access { admin, .. } => {
                if *admin {
                    claims.insert("role", "admin");
                }
            },
            TokenClaims::Refresh { rand, .. } => {
                claims.insert("rand", rand.as_str());
            },
            TokenClaims::PasswordReset { .. } => {},
            TokenClaims::MagicLink { next, .. } => {
                claims.insert("next", next.as_str());
            },
            TokenClaims::EmailVerification { next, .. } => {
                claims.insert("next", next.as_str());
            },
        }
        claims
    }

    /// Reads a claim set as the claims of one of the service's tokens.
    pub fn decode(claims: &ClaimSet) -> (r: Result<TokenClaims, DecodeError>)
        ensures
            match r {
                Ok(typed) => decoded(claims@) == Ok::<TokenClaimsView, DecodeError>(typed@),
                Err(e) => decoded(claims@) == Err::<TokenClaimsView, DecodeError>(e),
            },
    {
        proof {
            lemma_names_differ();
        }
        let tag = match claims.get("type") {
            Some(tag) => tag,
            None => {
                return Err(DecodeError::UnknownType);
            },
        };
        let is_access = same_text(tag.as_str(), "at");
        let is_refresh = same_text(tag.as_str(), "rt");
        let is_reset = same_text(tag.as_str(), "password_reset");
        let is_magic = same_text(tag.as_str(), "magic-link");
        let is_verification = same_text(tag.as_str(), "email-verification");
        if !is_access && !is_refresh && !is_reset && !is_magic && !is_verification {
            return Err(DecodeError::UnknownType);
        }
        let uid = match claims.get("uid") {
            Some(uid) => uid,
            None => {
                return Err(DecodeError::Malformed);
            },
        };
        let exp = match read_claim_number(claims, "exp") {
            Some(exp) => exp,
            None => {
                return Err(DecodeError::Malformed);
            },
        };
        if is_access {
            let admin = claims.has("role", "admin");
            Ok(TokenClaims::Access { uid, exp, admin })
        } else if is_refresh {
            match claims.get("rand") {
                Some(rand) => Ok(TokenClaims::Refresh { uid, exp, rand }),
                None => Err(DecodeError::Malformed),
            }
        } else if is_reset {
            Ok(TokenClaims::PasswordReset { uid, exp })
        } else {
            match claims.get("next") {
                Some(next) => if is_magic {
                    Ok(TokenClaims::MagicLink { uid, exp, next })
                } else {
                    Ok(TokenClaims::EmailVerification { uid, exp, next })
                },
                None => Err(DecodeError::Malformed),
            }
        }
    }
}

} // verus!
