//! What holds of the operations together: laws that relate one call to the
//! next, proved from the operations' own definitions.

use crate::auth::change_password::{changed_password, reset_check, ChangePassBody};
use crate::auth::email_verify::verified;
use crate::auth::login::{logged_in, LoginBody};
use crate::auth::logout::{logged_out, LogoutBody};
use crate::auth::refresh::{presented, redeemed, used_row, RefreshError};
use crate::auth::signup::{new_user, signed_up, SignupBody};
use crate::auth::util::{
    access_claims, bearer_token, fresh_row, header_verdict, issued, minted, refresh_claims,
    HeaderError, TokenPairView, ACCESS_LIFETIME, REFRESH_LIFETIME,
};
use crate::codec::verified_claims;
use crate::config::Config;
use crate::entity::refresh_tokens::{kept, Keep, Row};
use crate::entity::users::{by_email, email_known, emails_unique, UserView};
use crate::ids::{uuid_text, uuid_value};
use crate::password::{hashed, password_matches, strength_fault, Strength};
use crate::response::{ApiResponseView, Failure, ReplyView, STATUS_CREATED, STATUS_OK};
use crate::token::{decoded, encoded, lemma_decode_encode, DecodeError, TokenClaimsView};
use crate::util::prune_database::pruned;
use vstd::prelude::*;

verus! {

/// What the claims of an access token are read as.
pub proof fn lemma_access_claims(uid: Seq<char>, exp: i64, admin: bool)
    ensures
        decoded(encoded(access_claims(uid, exp, admin))) == Ok::<TokenClaimsView, DecodeError>(
            TokenClaimsView::Access { uid, exp, admin },
        ),
{
    lemma_decode_encode(access_claims(uid, exp, admin));
}

/// What the claims of a refresh token are read as.
pub proof fn lemma_refresh_claims(uid: Seq<char>, exp: i64, nonce: Seq<char>)
    ensures
        decoded(encoded(refresh_claims(uid, exp, nonce))) == Ok::<TokenClaimsView, DecodeError>(
            TokenClaimsView::Refresh { uid, exp, rand: nonce },
        ),
{
    lemma_decode_encode(refresh_claims(uid, exp, nonce));
}

/// The tokens of a pair that was minted are authentic: each verifies, under
/// the key it was signed with, to the claims of its type for the user it
/// was minted for.
pub proof fn lemma_minted_verifies(
    uid: Seq<char>,
    key: Seq<u8>,
    now: i64,
    nonce: Seq<char>,
    admin: bool,
)
    requires
        minted(uid, key, now, nonce, admin) is Ok,
    ensures
        ({
            let pair = minted(uid, key, now, nonce, admin)->Ok_0;
            &&& pair.expiry == now + ACCESS_LIFETIME
            &&& pair.refresh_expiry == now + REFRESH_LIFETIME
            &&& uuid_value(uid) == Some(pair.uid)
            &&& verified_claims(pair.access_token, key) == Some(
                encoded(access_claims(uid, pair.expiry, admin)),
            )
            &&& verified_claims(pair.refresh_token, key) == Some(
                encoded(refresh_claims(uid, pair.refresh_expiry, nonce)),
            )
        }),
{
}

/// A user who has signed up can log in with the same email address and
/// password. Where the login's tokens can be issued, the response carries
/// them for the same user: the access token verifies to the claims of an
/// access token (type `at`) and the refresh token to those of a refresh
/// token (type `rt`), both with the user's id as subject. Where they
/// cannot, the login answers with an internal error, never with invalid
/// credentials.
pub proof fn law_signup_then_login(
    users: Map<u128, UserView>,
    tokens: Map<Seq<char>, Row>,
    config: Config,
    body: SignupBody,
    estimate: Option<Strength>,
    uid: u128,
    salt: Seq<u8>,
    now: i64,
    nonce: Seq<char>,
    later: i64,
    later_nonce: Seq<char>,
)
    requires
        signed_up(users, tokens, config, body, estimate, uid, salt, now, nonce).reply.1
            == STATUS_CREATED,
    ensures
        ({
            let first = signed_up(users, tokens, config, body, estimate, uid, salt, now, nonce);
            let key = config.secret_key@;
            let login = LoginBody { email: body.email, password: body.password };
            let second = logged_in(first.users, first.tokens, key, login, later, later_nonce, false);
            match issued(first.tokens, uuid_text(uid), key, later, later_nonce, false).1 {
                Ok(pair) => {
                    &&& second.1 == (
                        ApiResponseView::LoginResponse {
                            uid: uuid_text(uid),
                            token: pair.access_token,
                            expiry: pair.expiry,
                            refresh_token: pair.refresh_token,
                            email_verified: body.email_verified,
                            metadata: body.metadata@,
                        },
                        STATUS_OK,
                    )
                    &&& verified_claims(pair.access_token, key) matches Some(claims) && decoded(
                        claims,
                    ) == Ok::<TokenClaimsView, DecodeError>(
                        TokenClaimsView::Access {
                            uid: uuid_text(uid),
                            exp: pair.expiry,
                            admin: false,
                        },
                    )
                    &&& verified_claims(pair.refresh_token, key) matches Some(claims) && decoded(
                        claims,
                    ) == Ok::<TokenClaimsView, DecodeError>(
                        TokenClaimsView::Refresh {
                            uid: uuid_text(uid),
                            exp: pair.refresh_expiry,
                            rand: later_nonce,
                        },
                    )
                },
                Err(_) => second.1 == Failure::InternalOccurred.reply(),
            }
        }),
{
    let first = signed_up(users, tokens, config, body, estimate, uid, salt, now, nonce);
    let key = config.secret_key@;
    let hash = hashed(body.password@, salt, config.argon2_config)->0;
    let user = new_user(body, uid, hash, now);
    assert(first.users == users.insert(uid, user));
    // Only the new user has the address.
    assert(email_known(first.users, body.email@)) by {
        assert(first.users.contains_key(uid) && first.users[uid].email == body.email@);
    }
    let k = choose|k: u128| #[trigger] first.users.contains_key(k) && first.users[k].email == body.email@;
    assert(k == uid) by {
        if k != uid {
            assert(users.contains_key(k) && users[k].email == body.email@);
        }
    }
    assert(by_email(first.users, body.email@) == Some(user));
    assert(password_matches(hash, body.password@) == Some(true));
    let outcome = issued(first.tokens, uuid_text(uid), key, later, later_nonce, false);
    if outcome.1 is Ok {
        let pair = outcome.1->Ok_0;
        lemma_minted_verifies(uuid_text(uid), key, later, later_nonce, false);
        lemma_access_claims(uuid_text(uid), pair.expiry, false);
        lemma_refresh_claims(uuid_text(uid), pair.refresh_expiry, later_nonce);
    }
}

/// A refresh token that was minted is accepted for redemption by its
/// subject up to and including the second of its expiry, and is refused as
/// expired after it.
pub proof fn lemma_presented_minted(
    uid: Seq<char>,
    key: Seq<u8>,
    now: i64,
    nonce: Seq<char>,
    admin: bool,
    later: i64,
)
    requires
        minted(uid, key, now, nonce, admin) is Ok,
    ensures
        ({
            let pair = minted(uid, key, now, nonce, admin)->Ok_0;
            presented(pair.refresh_token, key, later) == if later > pair.refresh_expiry {
                Err::<(Seq<char>, u128), RefreshError>(RefreshError::Expired)
            } else {
                Ok((uid, pair.uid))
            }
        }),
{
    let pair = minted(uid, key, now, nonce, admin)->Ok_0;
    lemma_minted_verifies(uid, key, now, nonce, admin);
    lemma_refresh_claims(uid, pair.refresh_expiry, nonce);
}

/// Redeeming a refresh token that was issued, before it expires: its record
/// is marked as used, and a new pair is issued for the same user. Where the
/// new pair can be issued, the redemption returns it, its refresh token is
/// another than the one redeemed, and its record is there and unused. Where
/// it cannot, the redemption fails with an internal error, and the token
/// stays used.
pub proof fn law_redeem_once(
    table: Map<Seq<char>, Row>,
    uid: Seq<char>,
    key: Seq<u8>,
    now: i64,
    nonce: Seq<char>,
    later: i64,
    later_nonce: Seq<char>,
)
    requires
        issued(table, uid, key, now, nonce, false).1 is Ok,
        later <= now + REFRESH_LIFETIME,
    ensures
        ({
            let start = issued(table, uid, key, now, nonce, false);
            let pair = start.1->Ok_0;
            let marked = start.0.insert(pair.refresh_token, used_row(fresh_row(pair)));
            let next = issued(marked, uid, key, later, later_nonce, false);
            let end = redeemed(start.0, pair.refresh_token, key, later, later_nonce);
            &&& end.0 == next.0
            &&& end.0.contains_key(pair.refresh_token)
            &&& end.0[pair.refresh_token] == used_row(fresh_row(pair))
            &&& match next.1 {
                Ok(new_pair) => {
                    &&& end.1 == Ok::<(Seq<char>, TokenPairView), RefreshError>((uid, new_pair))
                    &&& new_pair.refresh_token != pair.refresh_token
                    &&& end.0.contains_key(new_pair.refresh_token)
                    &&& end.0[new_pair.refresh_token] == fresh_row(new_pair)
                },
                Err(_) => end.1 == Err::<(Seq<char>, TokenPairView), RefreshError>(
                    RefreshError::Internal,
                ),
            }
        }),
{
    let start = issued(table, uid, key, now, nonce, false);
    let pair = start.1->Ok_0;
    lemma_minted_verifies(uid, key, now, nonce, false);
    lemma_presented_minted(uid, key, now, nonce, false, later);
    assert(start.0.contains_key(pair.refresh_token));
    assert(start.0[pair.refresh_token] == fresh_row(pair));
}

/// Presenting a refresh token that was already redeemed revokes the whole
/// family: the redemption fails as expired, no refresh token of the user is
/// left in the table, and none that the user had can be redeemed after
/// that, at any time.
pub proof fn law_reuse_revokes_family(
    table: Map<Seq<char>, Row>,
    token: Seq<char>,
    key: Seq<u8>,
    now: i64,
    nonce: Seq<char>,
)
    requires
        presented(token, key, now) is Ok,
        table.contains_key(token),
        table[token].used,
    ensures
        ({
            let id = presented(token, key, now)->Ok_0.1;
            let end = redeemed(table, token, key, now, nonce);
            &&& end.1 == Err::<(Seq<char>, TokenPairView), RefreshError>(RefreshError::Expired)
            &&& end.0 == kept(table, Keep::OtherUsers(id))
            &&& forall|other: Seq<char>| #[trigger]
                end.0.contains_key(other) ==> table.contains_key(other) && end.0[other]
                    == table[other] && table[other].uid != id
            &&& forall|other: Seq<char>, later: i64, later_nonce: Seq<char>|
                table.contains_key(other) && table[other].uid == id ==> (#[trigger] redeemed(
                    end.0,
                    other,
                    key,
                    later,
                    later_nonce,
                )).1 is Err
        }),
{
}

/// Replaying a refresh token after it was redeemed: the replay fails as
/// expired, and the pair that the redemption had issued is revoked with the
/// rest of the family. Its refresh token has no record any more and cannot
/// be redeemed, at any time.
pub proof fn law_replay_revokes_rotated_token(
    table: Map<Seq<char>, Row>,
    uid: Seq<char>,
    key: Seq<u8>,
    now: i64,
    nonce: Seq<char>,
    later: i64,
    later_nonce: Seq<char>,
    again: i64,
    again_nonce: Seq<char>,
)
    requires
        issued(table, uid, key, now, nonce, false).1 is Ok,
        later <= now + REFRESH_LIFETIME,
        again <= now + REFRESH_LIFETIME,
        redeemed(
            issued(table, uid, key, now, nonce, false).0,
            issued(table, uid, key, now, nonce, false).1->Ok_0.refresh_token,
            key,
            later,
            later_nonce,
        ).1 is Ok,
    ensures
        ({
            let start = issued(table, uid, key, now, nonce, false);
            let token = start.1->Ok_0.refresh_token;
            let first = redeemed(start.0, token, key, later, later_nonce);
            let rotated = first.1->Ok_0.1.refresh_token;
            let second = redeemed(first.0, token, key, again, again_nonce);
            &&& rotated != token
            &&& second.1 == Err::<(Seq<char>, TokenPairView), RefreshError>(RefreshError::Expired)
            &&& !second.0.contains_key(token)
            &&& !second.0.contains_key(rotated)
            &&& forall|at: i64, with: Seq<char>|
                (#[trigger] redeemed(second.0, rotated, key, at, with)).1 is Err
        }),
{
    let start = issued(table, uid, key, now, nonce, false);
    let pair = start.1->Ok_0;
    let token = pair.refresh_token;
    let first = redeemed(start.0, token, key, later, later_nonce);
    let marked = start.0.insert(token, used_row(fresh_row(pair)));
    law_redeem_once(table, uid, key, now, nonce, later, later_nonce);
    lemma_minted_verifies(uid, key, now, nonce, false);
    lemma_minted_verifies(uid, key, later, later_nonce, false);
    lemma_presented_minted(uid, key, now, nonce, false, again);
    let new_pair = issued(marked, uid, key, later, later_nonce, false).1->Ok_0;
    assert(first.0[new_pair.refresh_token].uid == pair.uid);
    assert(first.0[token].uid == pair.uid);
    law_reuse_revokes_family(first.0, token, key, again, again_nonce);
}

/// A refresh token whose expiry has passed is refused as expired, and the
/// table stays as it was: neither the token's own record nor any other is
/// touched.
pub proof fn law_expired_refresh_changes_nothing(
    table: Map<Seq<char>, Row>,
    token: Seq<char>,
    key: Seq<u8>,
    now: i64,
    nonce: Seq<char>,
)
    requires
        verified_claims(token, key) matches Some(claims) && (decoded(claims) matches Ok(
            TokenClaimsView::Refresh { exp, .. },
        ) && now > exp),
    ensures
        redeemed(table, token, key, now, nonce) == (
            table,
            Err::<(Seq<char>, TokenPairView), RefreshError>(RefreshError::Expired),
        ),
{
}

/// The bearer check accepts an access token that was minted up to and
/// including the second of its expiry, `ACCESS_LIFETIME` seconds after it
/// was minted, and refuses it as expired from the next second on.
pub proof fn law_access_token_expiry(
    uid: Seq<char>,
    key: Seq<u8>,
    now: i64,
    nonce: Seq<char>,
    admin: bool,
    header: Seq<u8>,
    later: i64,
)
    requires
        minted(uid, key, now, nonce, admin) is Ok,
        bearer_token(header) == Some(minted(uid, key, now, nonce, admin)->Ok_0.access_token),
    ensures
        ({
            let pair = minted(uid, key, now, nonce, admin)->Ok_0;
            &&& pair.expiry == now + ACCESS_LIFETIME
            &&& header_verdict(Some(header), key, later) == if later <= pair.expiry {
                Ok::<u128, HeaderError>(pair.uid)
            } else {
                Err(HeaderError::Expired)
            }
        }),
{
    let pair = minted(uid, key, now, nonce, admin)->Ok_0;
    lemma_minted_verifies(uid, key, now, nonce, admin);
    lemma_access_claims(uid, pair.expiry, admin);
}

/// A sign-up with an email address that a user has creates no user: the
/// table of users stays as it was, whatever the request is answered. Where
/// the request is otherwise in order, the answer is the conflict.
pub proof fn law_duplicate_signup(
    users: Map<u128, UserView>,
    tokens: Map<Seq<char>, Row>,
    config: Config,
    body: SignupBody,
    estimate: Option<Strength>,
    uid: u128,
    salt: Seq<u8>,
    now: i64,
    nonce: Seq<char>,
)
    requires
        email_known(users, body.email@),
    ensures
        ({
            let outcome = signed_up(users, tokens, config, body, estimate, uid, salt, now, nonce);
            &&& outcome.users == users
            &&& outcome.tokens == tokens
            &&& outcome.reply.1 != STATUS_CREATED
            &&& (crate::email_address::is_email(body.email@) && strength_fault(
                estimate,
                config.minimum_password_strength,
            ) is None && hashed(body.password@, salt, config.argon2_config) is Some)
                ==> outcome.reply == Failure::EmailAlreadyInUse.reply()
        }),
{
}

/// Of two sign-ups with the same email address, one after the other, at
/// most the first creates a user: once it has, the second creates none and,
/// where it is otherwise in order, is answered with the conflict. No two
/// users share the address afterwards.
pub proof fn law_second_signup_conflicts(
    users: Map<u128, UserView>,
    tokens: Map<Seq<char>, Row>,
    config: Config,
    first: SignupBody,
    estimate: Option<Strength>,
    uid: u128,
    salt: Seq<u8>,
    now: i64,
    nonce: Seq<char>,
    second: SignupBody,
    second_estimate: Option<Strength>,
    second_uid: u128,
    second_salt: Seq<u8>,
    second_now: i64,
    second_nonce: Seq<char>,
)
    requires
        emails_unique(users),
        first.email@ == second.email@,
        signed_up(users, tokens, config, first, estimate, uid, salt, now, nonce).reply.1
            == STATUS_CREATED,
    ensures
        ({
            let one = signed_up(users, tokens, config, first, estimate, uid, salt, now, nonce);
            let two = signed_up(
                one.users,
                one.tokens,
                config,
                second,
                second_estimate,
                second_uid,
                second_salt,
                second_now,
                second_nonce,
            );
            &&& two.users == one.users
            &&& two.reply.1 != STATUS_CREATED
            &&& emails_unique(two.users)
            &&& (strength_fault(second_estimate, config.minimum_password_strength) is None
                && hashed(second.password@, second_salt, config.argon2_config) is Some)
                ==> two.reply == Failure::EmailAlreadyInUse.reply()
        }),
{
    let one = signed_up(users, tokens, config, first, estimate, uid, salt, now, nonce);
    assert(one.users.contains_key(uid) && one.users[uid].email == second.email@);
    assert(email_known(one.users, second.email@));
    law_duplicate_signup(
        one.users,
        one.tokens,
        config,
        second,
        second_estimate,
        second_uid,
        second_salt,
        second_now,
        second_nonce,
    );
    assert(emails_unique(one.users)) by {
        assert forall|a: u128, b: u128|
            #[trigger] one.users.contains_key(a) && #[trigger] one.users.contains_key(b) && a
                != b implies one.users[a].email != one.users[b].email by {
            if a == uid {
                assert(users.contains_key(b));
            } else if b == uid {
                assert(users.contains_key(a));
            }
        }
    }
}

/// One sign-up request, with what is drawn for it.
pub ghost struct SignupCall {
    pub body: SignupBody,
    pub estimate: Option<Strength>,
    pub uid: u128,
    pub salt: Seq<u8>,
    pub now: i64,
    pub nonce: Seq<char>,
}

/// The outcome of one sign-up request on given tables.
pub open spec fn signup_outcome(
    users: Map<u128, UserView>,
    tokens: Map<Seq<char>, Row>,
    config: Config,
    call: SignupCall,
) -> crate::auth::signup::SignupOutcome {
    signed_up(
        users,
        tokens,
        config,
        call.body,
        call.estimate,
        call.uid,
        call.salt,
        call.now,
        call.nonce,
    )
}

/// The tables after a series of sign-up requests, one after the other.
pub open spec fn after_signups(
    users: Map<u128, UserView>,
    tokens: Map<Seq<char>, Row>,
    config: Config,
    calls: Seq<SignupCall>,
) -> (Map<u128, UserView>, Map<Seq<char>, Row>)
    decreases calls.len(),
{
    if calls.len() == 0 {
        (users, tokens)
    } else {
        let before = after_signups(users, tokens, config, calls.drop_last());
        let outcome = signup_outcome(before.0, before.1, config, calls.last());
        (outcome.users, outcome.tokens)
    }
}

/// How many of a series of sign-up requests create a user.
pub open spec fn signups_created(
    users: Map<u128, UserView>,
    tokens: Map<Seq<char>, Row>,
    config: Config,
    calls: Seq<SignupCall>,
) -> nat
    decreases calls.len(),
{
    if calls.len() == 0 {
        0
    } else {
        let before = after_signups(users, tokens, config, calls.drop_last());
        let outcome = signup_outcome(before.0, before.1, config, calls.last());
        signups_created(users, tokens, config, calls.drop_last()) + if outcome.reply.1
            == STATUS_CREATED {
            1nat
        } else {
            0nat
        }
    }
}

/// Of any number of sign-ups with the same email address, in whatever
/// order they are served, at most one creates a user; none does where the
/// address had a user before. Once a user has the address, it keeps it.
pub proof fn law_many_signups_one_user(
    users: Map<u128, UserView>,
    tokens: Map<Seq<char>, Row>,
    config: Config,
    calls: Seq<SignupCall>,
    email: Seq<char>,
)
    requires
        forall|i: int| 0 <= i < calls.len() ==> (#[trigger] calls[i]).body.email@ == email,
    ensures
        signups_created(users, tokens, config, calls) <= 1,
        email_known(users, email) ==> signups_created(users, tokens, config, calls) == 0,
        signups_created(users, tokens, config, calls) == 1 || email_known(users, email)
            ==> email_known(after_signups(users, tokens, config, calls).0, email),
    decreases calls.len(),
{
    if calls.len() > 0 {
        let head = calls.drop_last();
        assert forall|i: int| 0 <= i < head.len() implies (#[trigger] head[i]).body.email@
            == email by {
            assert(head[i] == calls[i]);
        }
        law_many_signups_one_user(users, tokens, config, head, email);
        let before = after_signups(users, tokens, config, head);
        let call = calls.last();
        assert(call == calls[calls.len() - 1]);
        let outcome = signup_outcome(before.0, before.1, config, call);
        if email_known(before.0, email) {
            law_duplicate_signup(
                before.0,
                before.1,
                config,
                call.body,
                call.estimate,
                call.uid,
                call.salt,
                call.now,
                call.nonce,
            );
        } else if outcome.reply.1 == STATUS_CREATED {
            assert(outcome.users.contains_key(call.uid) && outcome.users[call.uid].email == email);
        }
    }
}

/// A password-reset token serves one change of password. Once a request has
/// changed a password with the token in place of the old password, the
/// token's record is gone, and every later request that presents the token
/// is refused and changes nothing.
pub proof fn law_reset_token_single_use(
    users: Map<u128, UserView>,
    resets: Map<Seq<char>, Row>,
    config: Config,
    header: Option<Seq<u8>>,
    body: ChangePassBody,
    estimate: Option<Strength>,
    salt: Seq<u8>,
    now: i64,
    later_header: Option<Seq<u8>>,
    later_body: ChangePassBody,
    later_estimate: Option<Strength>,
    later_salt: Seq<u8>,
    later: i64,
)
    requires
        changed_password(users, resets, config, header, body, estimate, salt, now).reply
            == ReplyView::Empty(STATUS_OK),
        reset_check(
            verified_claims(body.old_password@, config.secret_key@),
            resets.contains_key(body.old_password@),
            now,
        ) == Ok::<bool, Failure>(true),
        later_body.old_password@ == body.old_password@,
    ensures
        ({
            let first = changed_password(users, resets, config, header, body, estimate, salt, now);
            let second = changed_password(
                first.users,
                first.resets,
                config,
                later_header,
                later_body,
                later_estimate,
                later_salt,
                later,
            );
            &&& !first.resets.contains_key(body.old_password@)
            &&& second.reply != ReplyView::Empty(STATUS_OK)
            &&& second.users == first.users
            &&& second.resets == first.resets
        }),
{
}

/// No pair is handed out without a record: where a pair is issued, the
/// table holds the record of its refresh token, unused, for the pair's user
/// and with the token's expiry. Where none is issued, the table stays as it
/// was.
pub proof fn law_issued_pair_is_recorded(
    table: Map<Seq<char>, Row>,
    uid: Seq<char>,
    key: Seq<u8>,
    now: i64,
    nonce: Seq<char>,
    admin: bool,
)
    ensures
        ({
            let outcome = issued(table, uid, key, now, nonce, admin);
            match outcome.1 {
                Ok(pair) => {
                    &&& !table.contains_key(pair.refresh_token)
                    &&& outcome.0 == table.insert(pair.refresh_token, fresh_row(pair))
                    &&& outcome.0[pair.refresh_token] == (Row {
                        uid: pair.uid,
                        expiry: pair.refresh_expiry,
                        used: false,
                    })
                },
                Err(_) => outcome.0 == table,
            }
        }),
{
}

/// A refresh token whose record is marked as used never gets a new pair,
/// whatever else holds of it.
pub proof fn law_used_token_never_mints(
    table: Map<Seq<char>, Row>,
    token: Seq<char>,
    key: Seq<u8>,
    now: i64,
    nonce: Seq<char>,
)
    requires
        table.contains_key(token),
        table[token].used,
    ensures
        redeemed(table, token, key, now, nonce).1 is Err,
{
}

/// Revoking is idempotent: a logout that is repeated changes nothing more,
/// and is answered as before.
pub proof fn law_logout_is_idempotent(
    tokens: Map<Seq<char>, Row>,
    key: Seq<u8>,
    header: Option<Seq<u8>>,
    body: LogoutBody,
    now: i64,
)
    ensures
        ({
            let once = logged_out(tokens, key, header, body, now);
            logged_out(once.0, key, header, body, now) == once
        }),
{
    let once = logged_out(tokens, key, header, body, now);
    let twice = logged_out(once.0, key, header, body, now);
    assert(twice.0 =~= once.0);
}

/// Redeeming a verification token again changes nothing more, and sends the
/// user to the same address.
pub proof fn law_verification_is_idempotent(
    users: Map<u128, UserView>,
    token: Seq<char>,
    key: Seq<u8>,
    now: i64,
)
    ensures
        ({
            let once = verified(users, token, key, now);
            verified(once.0, token, key, now) == once
        }),
{
    let once = verified(users, token, key, now);
    let twice = verified(once.0, token, key, now);
    assert(twice.0 =~= once.0);
}

/// Pruning only deletes: what it leaves was there before, unchanged. And it
/// deletes no record of a token that has not yet expired.
pub proof fn law_pruning_keeps_live_tokens(tokens: Map<Seq<char>, Row>, now: i64)
    ensures
        forall|token: Seq<char>| #[trigger]
            pruned(tokens, now).contains_key(token) ==> tokens.contains_key(token) && pruned(
                tokens,
                now,
            )[token] == tokens[token],
        forall|token: Seq<char>| #[trigger]
            tokens.contains_key(token) && now <= tokens[token].expiry ==> pruned(
                tokens,
                now,
            ).contains_key(token),
{
}

} // verus!
