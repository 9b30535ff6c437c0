//! The bearer check, which every authenticated request passes, and the
//! issuing of token pairs.

use crate::claims::ClaimSet;
use crate::clock::unix_now;
use crate::codec::{sealed, sign, verified_claims, verify, SigningKey};
use crate::entity::refresh_tokens::{Model, RefreshTokens, Row};
use crate::ids::{parse_uuid, uuid_value};
use crate::random::{all_alphanumeric, random_text};
use crate::response::{
    error_body, error_view, ApiResponse, ErrorCode, Reply, ReplyView, STATUS_BAD_REQUEST,
    STATUS_UNAUTHORIZED,
};
use crate::text::{
    chars_of, eq_ignore_ascii_case, matches_ignoring_ascii_case, split_whitespace, words,
};
use crate::token::{decoded, encoded, DecodeError, TokenClaims, TokenClaimsView};
use vstd::prelude::*;

verus! {

/// Why the bearer check turned a request away.
#[derive(Clone, Copy, Debug, PartialEq, Eq, Structural)]
pub enum HeaderError {
    /// The request has no `Authorization` header.
    Missing,
    /// The header is not `Bearer` (in any case), white space and a token.
    Malformed,
    /// The token is not one that this service signed, or it lacks a claim
    /// that every access token carries.
    Unverified,
    /// The token's expiry has passed.
    Expired,
    /// The token is authentic but is no access token.
    WrongType,
}

impl HeaderError {
    /// The error code that clients see.
    pub open spec fn code(self) -> ErrorCode {
        match self {
            HeaderError::Missing => ErrorCode::NotAuthenticated,
            HeaderError::Malformed => ErrorCode::BadHeader,
            HeaderError::Unverified => ErrorCode::BadToken,
            HeaderError::Expired => ErrorCode::BadToken,
            HeaderError::WrongType => ErrorCode::BadToken,
        }
    }

    /// The message that clients see.
    pub open spec fn message(self) -> Seq<char> {
        match self {
            HeaderError::Missing => "The request is missing an 'Authorization' header"@,
            HeaderError::Malformed => "The 'Authorization' header is improperly formatted"@,
            HeaderError::Unverified => "The JWT could not be verified by the server"@,
            HeaderError::Expired => "The JWT has already expired"@,
            HeaderError::WrongType => "The JWT is not an access token"@,
        }
    }

    /// The HTTP status: 400 for a malformed header, 401 for the rest.
    pub open spec fn status(self) -> u16 {
        match self {
            HeaderError::Malformed => STATUS_BAD_REQUEST,
            _ => STATUS_UNAUTHORIZED,
        }
    }

    /// The response that tells the client of this error.
    pub fn response(self) -> (r: (ApiResponse, u16))
        ensures
            r.0@ == error_view(self.code(), self.message()),
            r.1 == self.status(),
    {
        match self {
            HeaderError::Missing => (
                error_body(
                    ErrorCode::NotAuthenticated,
                    "The request is missing an 'Authorization' header",
                ),
                STATUS_UNAUTHORIZED,
            ),
            HeaderError::Malformed => (
                error_body(
                    ErrorCode::BadHeader,
                    "The 'Authorization' header is improperly formatted",
                ),
                STATUS_BAD_REQUEST,
            ),
            HeaderError::Unverified => (
                error_body(ErrorCode::BadToken, "The JWT could not be verified by the server"),
                STATUS_UNAUTHORIZED,
            ),
            HeaderError::Expired => (
                error_body(ErrorCode::BadToken, "The JWT has already expired"),
                STATUS_UNAUTHORIZED,
            ),
            HeaderError::WrongType => (
                error_body(ErrorCode::BadToken, "The JWT is not an access token"),
                STATUS_UNAUTHORIZED,
            ),
        }
    }
}

impl HeaderError {
    /// The error as a reply, as contracts speak of it.
    pub open spec fn refusal(self) -> ReplyView {
        ReplyView::Json(error_view(self.code(), self.message()), self.status())
    }

    /// The reply that tells the client of this error.
    pub fn refuse(self) -> (r: Reply)
        ensures
            r@ == self.refusal(),
    {
        let (body, status) = self.response();
        Reply::Json(body, status)
    }
}

/// What the bearer check found: the user that the request acts for, or the
/// error response to send.
pub enum HeaderResult {
    Error(ApiResponse, u16),
    Uid(u128),
}

/// Whether a byte may stand in a header value that is text: printable ASCII
/// or a tab.
pub open spec fn is_visible_ascii(b: u8) -> bool {
    32 <= b < 127 || b == 9
}

/// Whether a header value is text.
pub open spec fn is_header_text(bytes: Seq<u8>) -> bool {
    forall|i: int| 0 <= i < bytes.len() ==> is_visible_ascii(#[trigger] bytes[i])
}

/// The characters of a header value that is text.
pub open spec fn header_chars(bytes: Seq<u8>) -> Seq<char> {
    Seq::new(bytes.len(), |i: int| bytes[i] as char)
}

/// Whether a word is the scheme of a bearer token: `bearer`, in any case.
pub open spec fn is_bearer_scheme(word: Seq<char>) -> bool {
    matches_ignoring_ascii_case(word, "bearer"@)
}

/// Tests whether a word is the scheme of a bearer token.
pub fn check_bearer_scheme(word: &str) -> (r: bool)
    ensures
        r == is_bearer_scheme(word@),
{
    let given = chars_of(word);
    let scheme = chars_of("bearer");
    eq_ignore_ascii_case(&given, &scheme)
}

/// The token that a header value carries: the second word, where the first
/// is `bearer` in any case.
pub open spec fn bearer_token(bytes: Seq<u8>) -> Option<Seq<char>> {
    let parts = words(header_chars(bytes));
    if is_header_text(bytes) && parts.len() >= 2 && is_bearer_scheme(parts[0]) {
        Some(parts[1])
    } else {
        None
    }
}

/// What the claims of an authentic token say to the bearer check at the time
/// `now`: the text of the subject's id, for an access token that has not
/// expired. The type is looked at before the expiry; a token is good up to
/// and including the second of its expiry.
pub open spec fn access_subject(claims: Map<Seq<char>, Seq<char>>, now: i64) -> Result<
    Seq<char>,
    HeaderError,
> {
    match decoded(claims) {
        Err(DecodeError::UnknownType) => Err(HeaderError::WrongType),
        Err(DecodeError::Malformed) => Err(HeaderError::Unverified),
        Ok(TokenClaimsView::Access { uid, exp, .. }) => if now > exp {
            Err(HeaderError::Expired)
        } else {
            Ok(uid)
        },
        Ok(_) => Err(HeaderError::WrongType),
    }
}

/// The verdict of the bearer check on a header value at the time `now`.
pub open spec fn header_verdict(header: Option<Seq<u8>>, key: Seq<u8>, now: i64) -> Result<
    u128,
    HeaderError,
> {
    match header {
        None => Err(HeaderError::Missing),
        Some(bytes) => match bearer_token(bytes) {
            None => Err(HeaderError::Malformed),
            Some(token) => match verified_claims(token, key) {
                None => Err(HeaderError::Unverified),
                Some(claims) => match access_subject(claims, now) {
                    Err(e) => Err(e),
                    Ok(uid) => match uuid_value(uid) {
                        None => Err(HeaderError::Unverified),
                        Some(id) => Ok(id),
                    },
                },
            },
        },
    }
}

/// The bytes of a header value, where the request has the header.
pub open spec fn header_view(auth_header: Option<&[u8]>) -> Option<Seq<u8>> {
    match auth_header {
        Some(b) => Some(b@),
        None => None,
    }
}

/// Whether a result of the bearer check tells of the given verdict.
pub open spec fn tells(r: HeaderResult, verdict: Result<u128, HeaderError>) -> bool {
    match verdict {
        Ok(id) => r == HeaderResult::Uid(id),
        Err(e) => r matches HeaderResult::Error(body, status) && body@ == error_view(
            e.code(),
            e.message(),
        ) && status == e.status(),
    }
}

/// Judges the claims of an authentic token for the bearer check.
pub fn check_access_claims(claims: &ClaimSet, now: i64) -> (r: Result<String, HeaderError>)
    ensures
        match r {
            Ok(uid) => access_subject(claims@, now) == Ok::<Seq<char>, HeaderError>(uid@),
            Err(e) => access_subject(claims@, now) == Err::<Seq<char>, HeaderError>(e),
        },
{
    match TokenClaims::decode(claims) {
        Err(DecodeError::UnknownType) => Err(HeaderError::WrongType),
        Err(DecodeError::Malformed) => Err(HeaderError::Unverified),
        Ok(TokenClaims::Access { uid, exp, .. }) => if now > exp {
            Err(HeaderError::Expired)
        } else {
            Ok(uid)
        },
        Ok(_) => Err(HeaderError::WrongType),
    }
}

/// The characters of a header value, where it is text.
pub fn read_header_text(bytes: &[u8]) -> (r: Option<Vec<char>>)
    ensures
        match r {
            Some(chars) => is_header_text(bytes@) && chars@ == header_chars(bytes@),
            None => !is_header_text(bytes@),
        },
{
    let mut chars: Vec<char> = Vec::new();
    let mut i: usize = 0;
    while i < bytes.len()
        invariant
            i <= bytes.len(),
            chars@.len() == i,
            forall|j: int| 0 <= j < i ==> is_visible_ascii(#[trigger] bytes@[j]),
            forall|j: int| 0 <= j < i ==> chars@[j] == bytes@[j] as char,
        decreases bytes.len() - i,
    {
        let b: u8 = bytes[i];
        if !((32 <= b && b < 127) || b == 9) {
            return None;
        }
        chars.push(b as char);
        i += 1;
    }
    assert(chars@ =~= header_chars(bytes@));
    Some(chars)
}

/// Takes the token out of a header value.
pub fn extract_bearer_token(bytes: &[u8]) -> (r: Option<String>)
    ensures
        match r {
            Some(t) => bearer_token(bytes@) == Some(t@),
            None => bearer_token(bytes@) is None,
        },
{
    let chars = match read_header_text(bytes) {
        Some(chars) => chars,
        None => {
            return None;
        },
    };
    let mut parts = split_whitespace(&chars);
    if parts.len() < 2 {
        return None;
    }
    assert(crate::text::texts(parts@)[0] == parts@[0]@);
    assert(crate::text::texts(parts@)[1] == parts@[1]@);
    if !check_bearer_scheme(parts[0].as_str()) {
        return None;
    }
    let token = parts.swap_remove(1);
    Some(token)
}

/// The bearer check at a given time: finds the user that a request acts for
/// from its `Authorization` header value.
///
/// The request passes where the value is `Bearer` (in any case), white space
/// and a token signed under `secret_key` whose claims are those of an access
/// token that has not expired at `now` and name a user id. Every other
/// request gets the error response of the first check that it fails.
pub fn verify_header_at(auth_header: Option<&[u8]>, secret_key: &SigningKey, now: i64) -> (r:
    HeaderResult)
    ensures
        tells(
            r,
            header_verdict(header_view(auth_header), secret_key@, now),
        ),
{
    let checked = check_header(auth_header, secret_key, now);
    match checked {
        Ok(id) => HeaderResult::Uid(id),
        Err(e) => {
            let (body, status) = e.response();
            HeaderResult::Error(body, status)
        },
    }
}

/// The verdict of the bearer check at a given time.
pub fn check_header(auth_header: Option<&[u8]>, secret_key: &SigningKey, now: i64) -> (r: Result<
    u128,
    HeaderError,
>)
    ensures
        r == header_verdict(header_view(auth_header), secret_key@, now),
{
    let bytes = match auth_header {
        Some(b) => b,
        None => {
            return Err(HeaderError::Missing);
        },
    };
    let token = match extract_bearer_token(bytes) {
        Some(t) => t,
        None => {
            return Err(HeaderError::Malformed);
        },
    };
    let claims = match verify(token.as_str(), secret_key) {
        Ok(c) => c,
        Err(_) => {
            return Err(HeaderError::Unverified);
        },
    };
    let uid = match check_access_claims(&claims, now) {
        Ok(uid) => uid,
        Err(e) => {
            return Err(e);
        },
    };
    match parse_uuid(uid.as_str()) {
        Some(id) => Ok(id),
        None => Err(HeaderError::Unverified),
    }
}

/// The bearer check: finds the user that a request acts for from its
/// `Authorization` header value, at the time the clock shows.
///
/// The result is the verdict of `verify_header_at` for some time.
pub fn verify_header(auth_header: Option<&[u8]>, secret_key: &SigningKey) -> (r: HeaderResult)
    ensures
        exists|now: i64|
            tells(
                r,
                #[trigger] header_verdict(header_view(auth_header), secret_key@, now),
            ),
{
    let now: i64 = unix_now();
    verify_header_at(auth_header, secret_key, now)
}

/// How long the token of a mail flow is good for, in seconds: fifteen
/// minutes.
pub const FLOW_LIFETIME: i64 = 900;

/// When the token of a mail flow that starts at the time `now` expires;
/// `None` where that does not fit the clock's range.
pub open spec fn flow_expiry(now: i64) -> Option<i64> {
    if now > i64::MAX - FLOW_LIFETIME {
        None
    } else {
        Some((now + FLOW_LIFETIME) as i64)
    }
}

/// Computes when the token of a mail flow expires.
pub fn flow_expires(now: i64) -> (r: Option<i64>)
    ensures
        r == flow_expiry(now),
{
    if now > i64::MAX - FLOW_LIFETIME {
        None
    } else {
        Some(now + FLOW_LIFETIME)
    }
}

/// The token for typed claims under a key; `None` where it cannot be
/// signed.
pub open spec fn sealed_claims(claims: TokenClaimsView, key: Seq<u8>) -> Option<Seq<char>> {
    sealed(encoded(claims), key)
}

/// Signs typed claims into a token.
pub fn seal(claims: &TokenClaims, key: &SigningKey) -> (r: Option<String>)
    ensures
        match r {
            Some(token) => sealed_claims(claims@, key@) == Some(token@),
            None => sealed_claims(claims@, key@) is None,
        },
{
    match sign(&claims.encode(), key) {
        Ok(token) => Some(token),
        Err(_) => None,
    }
}

/// How long an access token is good for, in seconds: fifteen minutes, and
/// fifteen seconds for clocks that disagree.
pub const ACCESS_LIFETIME: i64 = 915;

/// How long a refresh token is good for, in seconds: thirty days.
pub const REFRESH_LIFETIME: i64 = 2592000;

/// The number of random characters that make refresh tokens of one user and
/// one second differ.
pub const NONCE_LENGTH: usize = 5;

/// The claims of an access token.
pub open spec fn access_claims(uid: Seq<char>, exp: i64, admin: bool) -> TokenClaimsView {
    TokenClaimsView::Access { uid, exp, admin }
}

/// The claims of a refresh token.
pub open spec fn refresh_claims(uid: Seq<char>, exp: i64, nonce: Seq<char>) -> TokenClaimsView {
    TokenClaimsView::Refresh { uid, exp, rand: nonce }
}

/// Why no token pair was issued.
#[derive(Clone, Copy, Debug, PartialEq, Eq, Structural)]
pub enum IssueError {
    /// The expiry does not fit the clock's range.
    Clock,
    /// The subject is no user id.
    BadSubject,
    /// A token could not be signed.
    Signing,
    /// The refresh token already has a record.
    Conflict,
}

/// An access token and the refresh token that goes with it.
#[derive(Debug)]
pub struct TokenPair {
    pub access_token: String,
    pub refresh_token: String,
    /// When the access token expires.
    pub expiry: i64,
    /// When the refresh token expires.
    pub refresh_expiry: i64,
    /// The user that the pair was issued to.
    pub uid: u128,
}

/// A token pair as contracts speak of it.
pub ghost struct TokenPairView {
    pub access_token: Seq<char>,
    pub refresh_token: Seq<char>,
    pub expiry: i64,
    pub refresh_expiry: i64,
    pub uid: u128,
}

impl View for TokenPair {
    type V = TokenPairView;

    open spec fn view(&self) -> TokenPairView {
        TokenPairView {
            access_token: self.access_token@,
            refresh_token: self.refresh_token@,
            expiry: self.expiry,
            refresh_expiry: self.refresh_expiry,
            uid: self.uid,
        }
    }
}

impl TokenPair {
    /// The record to keep of the pair's refresh token.
    pub fn record(&self) -> (r: Model)
        ensures
            r.refresh_token@ == self.refresh_token@,
            r.uid == self.uid,
            r.expiry == self.refresh_expiry,
            !r.used,
    {
        Model {
            uid: self.uid,
            refresh_token: self.refresh_token.clone(),
            expiry: self.refresh_expiry,
            used: false,
        }
    }
}

/// The pair that is minted for the user with id text `uid` at the time
/// `now`, with the refresh token's random part `nonce`: an access token that
/// expires `ACCESS_LIFETIME` seconds later and a refresh token that expires
/// `REFRESH_LIFETIME` seconds later, both signed under `key`.
pub open spec fn minted(
    uid: Seq<char>,
    key: Seq<u8>,
    now: i64,
    nonce: Seq<char>,
    admin: bool,
) -> Result<TokenPairView, IssueError> {
    if now > i64::MAX - REFRESH_LIFETIME {
        Err(IssueError::Clock)
    } else {
        let short_exp = (now + ACCESS_LIFETIME) as i64;
        let long_exp = (now + REFRESH_LIFETIME) as i64;
        match uuid_value(uid) {
            None => Err(IssueError::BadSubject),
            Some(id) => match sealed_claims(refresh_claims(uid, long_exp, nonce), key) {
                None => Err(IssueError::Signing),
                Some(rt) => match sealed_claims(access_claims(uid, short_exp, admin), key) {
                    None => Err(IssueError::Signing),
                    Some(at) => Ok(
                        TokenPairView {
                            access_token: at,
                            refresh_token: rt,
                            expiry: short_exp,
                            refresh_expiry: long_exp,
                            uid: id,
                        },
                    ),
                },
            },
        }
    }
}

/// Whether an issuing result tells of the given outcome.
pub open spec fn mint_tells(r: Result<TokenPair, IssueError>, outcome: Result<
    TokenPairView,
    IssueError,
>) -> bool {
    match outcome {
        Ok(p) => r matches Ok(pair) && pair@ == p,
        Err(e) => r == Err::<TokenPair, IssueError>(e),
    }
}

/// Mints a token pair, without keeping a record of it.
pub fn mint_pair(uid: &str, key: &SigningKey, now: i64, nonce: &str, admin: bool) -> (r: Result<
    TokenPair,
    IssueError,
>)
    ensures
        mint_tells(r, minted(uid@, key@, now, nonce@, admin)),
{
    if now > i64::MAX - REFRESH_LIFETIME {
        return Err(IssueError::Clock);
    }
    let short_exp: i64 = now + ACCESS_LIFETIME;
    let long_exp: i64 = now + REFRESH_LIFETIME;
    let id = match parse_uuid(uid) {
        Some(id) => id,
        None => {
            return Err(IssueError::BadSubject);
        },
    };
    let refresh = TokenClaims::Refresh {
        uid: uid.to_string(),
        exp: long_exp,
        rand: nonce.to_string(),
    };
    let access = TokenClaims::Access { uid: uid.to_string(), exp: short_exp, admin };
    let refresh_token = match seal(&refresh, key) {
        Some(t) => t,
        None => {
            return Err(IssueError::Signing);
        },
    };
    let access_token = match seal(&access, key) {
        Some(t) => t,
        None => {
            return Err(IssueError::Signing);
        },
    };
    Ok(TokenPair { access_token, refresh_token, expiry: short_exp, refresh_expiry: long_exp, uid: id })
}

/// The record that is kept of a pair's refresh token.
pub open spec fn fresh_row(pair: TokenPairView) -> Row {
    Row { uid: pair.uid, expiry: pair.refresh_expiry, used: false }
}

/// What issuing a pair does to the table of refresh tokens, and what it
/// returns: the pair is minted, and the record of its refresh token is added
/// before the pair is handed out. Where the token already has a record,
/// nothing is issued and the table stays as it was.
pub open spec fn issued(
    table: Map<Seq<char>, Row>,
    uid: Seq<char>,
    key: Seq<u8>,
    now: i64,
    nonce: Seq<char>,
    admin: bool,
) -> (Map<Seq<char>, Row>, Result<TokenPairView, IssueError>) {
    match minted(uid, key, now, nonce, admin) {
        Err(e) => (table, Err(e)),
        Ok(pair) => if table.contains_key(pair.refresh_token) {
            (table, Err(IssueError::Conflict))
        } else {
            (table.insert(pair.refresh_token, fresh_row(pair)), Ok(pair))
        },
    }
}

/// Issues a token pair at a given time and with a given random part, and
/// keeps the record of its refresh token.
pub fn issue_pair(
    tokens: &mut RefreshTokens,
    uid: &str,
    key: &SigningKey,
    now: i64,
    nonce: &str,
    admin: bool,
) -> (r: Result<TokenPair, IssueError>)
    ensures
        final(tokens)@ == issued(old(tokens)@, uid@, key@, now, nonce@, admin).0,
        mint_tells(r, issued(old(tokens)@, uid@, key@, now, nonce@, admin).1),
{
    let pair = match mint_pair(uid, key, now, nonce, admin) {
        Ok(pair) => pair,
        Err(e) => {
            return Err(e);
        },
    };
    if tokens.insert(pair.record()) {
        Ok(pair)
    } else {
        Err(IssueError::Conflict)
    }
}

/// Issues an access token and a refresh token for the user with id text
/// `uid`, keeps the record of the refresh token, and returns the access
/// token, the refresh token and the access token's expiry.
///
/// The time is read from the clock and the refresh token's random part is
/// drawn here: the result is that of `issue_pair` for some time and some
/// text of `NONCE_LENGTH` letters and digits.
pub fn get_at_and_rt(tokens: &mut RefreshTokens, uid: &String, key: &SigningKey) -> (r: Result<
    (String, String, i64),
    IssueError,
>)
    ensures
        exists|now: i64, nonce: Seq<char>|
            {
                let outcome = #[trigger] issued(old(tokens)@, uid@, key@, now, nonce, false);
                &&& nonce.len() == NONCE_LENGTH
                &&& all_alphanumeric(nonce)
                &&& final(tokens)@ == outcome.0
                &&& match outcome.1 {
                    Ok(pair) => r matches Ok(t) && t.0@ == pair.access_token && t.1@
                        == pair.refresh_token && t.2 == pair.expiry,
                    Err(e) => r == Err::<(String, String, i64), IssueError>(e),
                }
            },
{
    let now: i64 = unix_now();
    let nonce = random_text(NONCE_LENGTH);
    match issue_pair(tokens, uid.as_str(), key, now, nonce.as_str(), false) {
        Ok(pair) => Ok((pair.access_token, pair.refresh_token, pair.expiry)),
        Err(e) => Err(e),
    }
}

} // verus!
