use turbocore::auth::refresh::{
    decide_redeem, handler, handler_at, redeem, RedeemAction, RefreshBody, RefreshError,
};
use turbocore::auth::util::{
    issue_pair, mint_pair, IssueError, ACCESS_LIFETIME, NONCE_LENGTH, REFRESH_LIFETIME,
};
use turbocore::claims::ClaimSet;
use turbocore::codec::{sign, SigningKey};
use turbocore::entity::refresh_tokens::{Keep, Model, RefreshTokens};
use turbocore::response::{
    ApiResponse, STATUS_INTERNAL_SERVER_ERROR, STATUS_OK, STATUS_UNAUTHORIZED,
};
use turbocore::util::prune_database::{run, run_at, PRUNE_AGE};

const ALICE: &str = "6755d7b1-38f2-4a3a-b872-98d0e7bbd1ee";
const ALICE_ID: u128 = 0x6755d7b138f24a3ab87298d0e7bbd1ee;
const BOB: &str = "11111111-2222-4333-8444-555555555555";
const BOB_ID: u128 = 0x11111111222243338444555555555555;
const T0: i64 = 1_700_000_000;

fn key() -> SigningKey {
    SigningKey { bytes: b"a_very_long_secret_key".to_vec() }
}

fn error_of(resp: &ApiResponse) -> (&str, &str) {
    match resp {
        ApiResponse::ApiError { message, error_code } => (error_code.as_str(), message.as_str()),
        other => panic!("no error: {:?}", other),
    }
}

fn refresh_body(token: &str) -> RefreshBody {
    RefreshBody { refresh_token: token.to_string() }
}

fn custom_token(pairs: &[(&str, &str)]) -> String {
    let mut claims = ClaimSet::new();
    for (k, v) in pairs {
        claims.insert(k, v);
    }
    sign(&claims, &key()).unwrap()
}

#[test]
fn a_pair_expires_at_the_fixed_lifetimes() {
    assert_eq!(ACCESS_LIFETIME, 915);
    assert_eq!(REFRESH_LIFETIME, 2_592_000);
    assert_eq!(NONCE_LENGTH, 5);
    let pair = mint_pair(ALICE, &key(), T0, "abcde", false).unwrap();
    assert_eq!(pair.expiry, 1_700_000_915);
    assert_eq!(pair.refresh_expiry, 1_702_592_000);
    assert_eq!(pair.uid, ALICE_ID);
    assert_ne!(pair.access_token, pair.refresh_token);
}

#[test]
fn minting_is_a_function_of_its_inputs() {
    let a = mint_pair(ALICE, &key(), T0, "abcde", false).unwrap();
    let b = mint_pair(ALICE, &key(), T0, "abcde", false).unwrap();
    let c = mint_pair(ALICE, &key(), T0, "abcdf", false).unwrap();
    let d = mint_pair(ALICE, &key(), T0 + 1, "abcde", false).unwrap();
    assert_eq!(a.refresh_token, b.refresh_token);
    assert_eq!(a.access_token, b.access_token);
    assert_ne!(a.refresh_token, c.refresh_token);
    assert_eq!(a.access_token, c.access_token);
    assert_ne!(a.refresh_token, d.refresh_token);
    assert_ne!(a.access_token, d.access_token);
}

#[test]
fn issuing_fails_for_what_is_no_user_id() {
    let mut tokens = RefreshTokens::new();
    let r = issue_pair(&mut tokens, "not-a-uuid", &key(), T0, "abcde", false);
    assert_eq!(r.err(), Some(IssueError::BadSubject));
    assert_eq!(tokens.len(), 0);
}

#[test]
fn issuing_fails_at_the_end_of_time() {
    let mut tokens = RefreshTokens::new();
    let r = issue_pair(&mut tokens, ALICE, &key(), i64::MAX - REFRESH_LIFETIME + 1, "abcde", false);
    assert_eq!(r.err(), Some(IssueError::Clock));
    let r = issue_pair(&mut tokens, ALICE, &key(), i64::MAX - REFRESH_LIFETIME, "abcde", false);
    assert_eq!(r.unwrap().refresh_expiry, i64::MAX);
}

#[test]
fn issuing_the_same_token_twice_is_a_conflict() {
    let mut tokens = RefreshTokens::new();
    let first = issue_pair(&mut tokens, ALICE, &key(), T0, "abcde", false).unwrap();
    let second = issue_pair(&mut tokens, ALICE, &key(), T0, "abcde", false);
    assert_eq!(second.err(), Some(IssueError::Conflict));
    assert_eq!(tokens.len(), 1);
    let record = tokens.find_by_id(&first.refresh_token).unwrap();
    assert_eq!(record.uid, ALICE_ID);
    assert_eq!(record.expiry, T0 + REFRESH_LIFETIME);
    assert!(!record.used);
}

#[test]
fn redeeming_once_rotates_the_token() {
    let mut tokens = RefreshTokens::new();
    let pair = issue_pair(&mut tokens, ALICE, &key(), T0, "abcde", false).unwrap();
    let (uid, new_pair) = redeem(&mut tokens, &pair.refresh_token, &key(), T0 + 10, "fghij").unwrap();
    assert_eq!(uid, ALICE);
    assert_ne!(new_pair.refresh_token, pair.refresh_token);
    assert_eq!(new_pair.expiry, T0 + 10 + ACCESS_LIFETIME);
    assert_eq!(tokens.len(), 2);
    assert!(tokens.find_by_id(&pair.refresh_token).unwrap().used);
    assert!(!tokens.find_by_id(&new_pair.refresh_token).unwrap().used);
}

#[test]
fn redeeming_twice_revokes_the_family() {
    let mut tokens = RefreshTokens::new();
    let pair = issue_pair(&mut tokens, ALICE, &key(), T0, "abcde", false).unwrap();
    let sibling = issue_pair(&mut tokens, ALICE, &key(), T0, "zzzzz", false).unwrap();
    let other = issue_pair(&mut tokens, BOB, &key(), T0, "abcde", false).unwrap();
    let (_, new_pair) = redeem(&mut tokens, &pair.refresh_token, &key(), T0 + 10, "fghij").unwrap();
    assert_eq!(tokens.len(), 4);

    let again = redeem(&mut tokens, &pair.refresh_token, &key(), T0 + 20, "klmno");
    assert_eq!(again.err(), Some(RefreshError::Expired));
    assert_eq!(tokens.len(), 1);
    assert!(tokens.find_by_id(&other.refresh_token).is_some());

    let with_new = redeem(&mut tokens, &new_pair.refresh_token, &key(), T0 + 30, "pqrst");
    assert_eq!(with_new.err(), Some(RefreshError::Expired));
    let with_sibling = redeem(&mut tokens, &sibling.refresh_token, &key(), T0 + 30, "pqrst");
    assert_eq!(with_sibling.err(), Some(RefreshError::Expired));

    // Another user's session is not touched.
    assert!(redeem(&mut tokens, &other.refresh_token, &key(), T0 + 30, "pqrst").is_ok());
}

#[test]
fn an_expired_refresh_token_changes_nothing() {
    let mut tokens = RefreshTokens::new();
    let pair = issue_pair(&mut tokens, ALICE, &key(), T0, "abcde", false).unwrap();
    let sibling = issue_pair(&mut tokens, ALICE, &key(), T0 + 5, "zzzzz", false).unwrap();
    let late = redeem(&mut tokens, &pair.refresh_token, &key(), T0 + REFRESH_LIFETIME + 1, "fghij");
    assert_eq!(late.err(), Some(RefreshError::Expired));
    assert_eq!(tokens.len(), 2);
    assert!(!tokens.find_by_id(&pair.refresh_token).unwrap().used);
    assert!(!tokens.find_by_id(&sibling.refresh_token).unwrap().used);
    // At the very second of its expiry the token is still good.
    assert!(redeem(&mut tokens, &pair.refresh_token, &key(), T0 + REFRESH_LIFETIME, "fghij").is_ok());
}

#[test]
fn a_token_without_a_record_revokes_the_family() {
    let mut tokens = RefreshTokens::new();
    let kept = issue_pair(&mut tokens, ALICE, &key(), T0, "abcde", false).unwrap();
    let foreign = mint_pair(ALICE, &key(), T0, "other", false).unwrap();
    let r = redeem(&mut tokens, &foreign.refresh_token, &key(), T0 + 1, "fghij");
    assert_eq!(r.err(), Some(RefreshError::Expired));
    assert!(tokens.find_by_id(&kept.refresh_token).is_none());
    assert_eq!(tokens.len(), 0);
}

#[test]
fn redeeming_refuses_what_is_no_refresh_token() {
    let mut tokens = RefreshTokens::new();
    let pair = issue_pair(&mut tokens, ALICE, &key(), T0, "abcde", false).unwrap();
    let r = redeem(&mut tokens, &pair.access_token, &key(), T0 + 1, "fghij");
    assert_eq!(r.err(), Some(RefreshError::WrongType));
    let r = redeem(&mut tokens, "garbage", &key(), T0 + 1, "fghij");
    assert_eq!(r.err(), Some(RefreshError::Unverified));
    let other_key = SigningKey { bytes: b"incorrect_secret_key".to_vec() };
    let r = redeem(&mut tokens, &pair.refresh_token, &other_key, T0 + 1, "fghij");
    assert_eq!(r.err(), Some(RefreshError::Unverified));
    let no_exp = custom_token(&[("iss", "TurboCore"), ("type", "rt"), ("uid", ALICE)]);
    assert_eq!(
        redeem(&mut tokens, &no_exp, &key(), T0, "fghij").err(),
        Some(RefreshError::Unverified)
    );
    let bad_uid = custom_token(&[("type", "rt"), ("uid", "nobody"), ("exp", "9999999999"), ("rand", "abcde")]);
    assert_eq!(
        redeem(&mut tokens, &bad_uid, &key(), T0, "fghij").err(),
        Some(RefreshError::Unverified)
    );
    let no_uid = custom_token(&[("type", "rt"), ("exp", "9999999999")]);
    assert_eq!(
        redeem(&mut tokens, &no_uid, &key(), T0, "fghij").err(),
        Some(RefreshError::Unverified)
    );
    // The type is looked at before the expiry.
    let old_access = custom_token(&[("type", "at"), ("uid", ALICE), ("exp", "5")]);
    assert_eq!(
        redeem(&mut tokens, &old_access, &key(), T0, "fghij").err(),
        Some(RefreshError::WrongType)
    );
    let old_refresh = custom_token(&[("type", "rt"), ("uid", ALICE), ("exp", "5"), ("rand", "abcde")]);
    assert_eq!(
        redeem(&mut tokens, &old_refresh, &key(), T0, "fghij").err(),
        Some(RefreshError::Expired)
    );
    let no_type = custom_token(&[("uid", ALICE), ("exp", "9999999999"), ("rand", "abcde")]);
    assert_eq!(
        redeem(&mut tokens, &no_type, &key(), T0, "fghij").err(),
        Some(RefreshError::WrongType)
    );
    let no_rand = custom_token(&[("type", "rt"), ("uid", ALICE), ("exp", "9999999999")]);
    assert_eq!(
        redeem(&mut tokens, &no_rand, &key(), T0, "fghij").err(),
        Some(RefreshError::Unverified)
    );
    assert_eq!(tokens.len(), 1);
    assert!(!tokens.find_by_id(&pair.refresh_token).unwrap().used);
}

#[test]
fn a_rotation_that_cannot_issue_leaves_the_token_used() {
    let mut tokens = RefreshTokens::new();
    let pair = issue_pair(&mut tokens, ALICE, &key(), T0, "abcde", false).unwrap();
    // The same second and the same random part give the same token again.
    let r = redeem(&mut tokens, &pair.refresh_token, &key(), T0, "abcde");
    assert_eq!(r.err(), Some(RefreshError::Internal));
    assert_eq!(tokens.len(), 1);
    assert!(tokens.find_by_id(&pair.refresh_token).unwrap().used);
}

#[test]
fn the_decision_follows_the_record() {
    let record = |used: bool, expiry: i64| {
        Some(Model { uid: ALICE_ID, refresh_token: "t".to_string(), expiry, used })
    };
    assert_eq!(decide_redeem(&None, T0), RedeemAction::RevokeFamily);
    assert_eq!(decide_redeem(&record(true, T0 + 1), T0), RedeemAction::RevokeFamily);
    assert_eq!(decide_redeem(&record(true, T0 - 1), T0), RedeemAction::RevokeFamily);
    assert_eq!(decide_redeem(&record(false, T0 - 1), T0), RedeemAction::Reject);
    assert_eq!(decide_redeem(&record(false, T0), T0), RedeemAction::Rotate);
    assert_eq!(decide_redeem(&record(false, T0 + 1), T0), RedeemAction::Rotate);
}

#[test]
fn the_refresh_handler_answers_with_the_stable_codes() {
    let mut tokens = RefreshTokens::new();
    let pair = issue_pair(&mut tokens, ALICE, &key(), T0, "abcde", false).unwrap();

    let (resp, status) = handler_at(&mut tokens, &key(), &refresh_body("junk"), T0, "fghij");
    assert_eq!(status, STATUS_UNAUTHORIZED);
    assert_eq!(
        error_of(&resp),
        ("INVALID_JWT", "The provided JWT could not be verified by the server")
    );

    let (resp, status) = handler_at(&mut tokens, &key(), &refresh_body(&pair.access_token), T0, "fghij");
    assert_eq!(status, STATUS_UNAUTHORIZED);
    assert_eq!(error_of(&resp), ("INVALID_JWT", "The provided refresh token is invalid"));

    let (resp, status) = handler_at(&mut tokens, &key(), &refresh_body(&pair.refresh_token), T0, "abcde");
    assert_eq!(status, STATUS_INTERNAL_SERVER_ERROR);
    assert_eq!(error_of(&resp), ("INTERNAL_SERVER_ERROR", "Internal Server Error"));

    let (resp, status) = handler_at(&mut tokens, &key(), &refresh_body(&pair.refresh_token), T0, "fghij");
    assert_eq!(status, STATUS_UNAUTHORIZED);
    assert_eq!(
        error_of(&resp),
        ("EXPIRED_JWT", "The JWT provided has already expired. Please log in again")
    );
}

#[test]
fn the_refresh_handler_returns_the_new_pair() {
    let mut tokens = RefreshTokens::new();
    let pair = issue_pair(&mut tokens, ALICE, &key(), T0, "abcde", false).unwrap();
    let (resp, status) = handler_at(&mut tokens, &key(), &refresh_body(&pair.refresh_token), T0 + 7, "fghij");
    assert_eq!(status, STATUS_OK);
    match resp {
        ApiResponse::RefreshResponse { uid, access_token, refresh_token, expiry } => {
            assert_eq!(uid, ALICE);
            assert_eq!(expiry, T0 + 7 + 915);
            let expected = mint_pair(ALICE, &key(), T0 + 7, "fghij", false).unwrap();
            assert_eq!(access_token, expected.access_token);
            assert_eq!(refresh_token, expected.refresh_token);
        },
        other => panic!("unexpected response: {:?}", other),
    }
}

#[test]
fn the_refresh_handler_reads_the_clock() {
    let mut tokens = RefreshTokens::new();
    let now = chrono::Utc::now().timestamp();
    let fresh = issue_pair(&mut tokens, ALICE, &key(), now - 10, "abcde", false).unwrap();
    let stale = issue_pair(&mut tokens, BOB, &key(), now - REFRESH_LIFETIME - 10, "abcde", false).unwrap();
    let (_, status) = handler(&mut tokens, &key(), &refresh_body(&stale.refresh_token));
    assert_eq!(status, STATUS_UNAUTHORIZED);
    assert!(!tokens.find_by_id(&stale.refresh_token).unwrap().used);
    let (resp, status) = handler(&mut tokens, &key(), &refresh_body(&fresh.refresh_token));
    assert_eq!(status, STATUS_OK);
    match resp {
        ApiResponse::RefreshResponse { expiry, refresh_token, .. } => {
            assert!(expiry >= now + 915 && expiry <= now + 915 + 5);
            assert_ne!(refresh_token, fresh.refresh_token);
        },
        other => panic!("unexpected response: {:?}", other),
    }
}

#[test]
fn the_table_keeps_one_record_for_each_token() {
    let mut tokens = RefreshTokens::new();
    let row = |token: &str, uid: u128, expiry: i64| Model {
        uid,
        refresh_token: token.to_string(),
        expiry,
        used: false,
    };
    assert!(tokens.insert(row("a", 1, 10)));
    assert!(tokens.insert(row("b", 1, 20)));
    assert!(tokens.insert(row("c", 2, 30)));
    assert!(!tokens.insert(row("a", 3, 40)));
    assert_eq!(tokens.len(), 3);
    assert_eq!(tokens.find_by_id("a").unwrap().uid, 1);
    assert!(tokens.find_by_id("d").is_none());

    assert!(tokens.mark_used("b"));
    assert!(!tokens.mark_used("d"));
    assert!(tokens.find_by_id("b").unwrap().used);
    assert!(!tokens.find_by_id("a").unwrap().used);

    tokens.delete_by_id("d");
    assert_eq!(tokens.len(), 3);
    tokens.delete_by_id("a");
    assert_eq!(tokens.len(), 2);
    tokens.delete_by_id("a");
    assert_eq!(tokens.len(), 2);

    tokens.retain(&Keep::ExpiringAfter(20));
    assert!(tokens.find_by_id("b").is_none());
    assert!(tokens.find_by_id("c").is_some());

    let rows = tokens.records();
    assert_eq!(rows.len(), 1);
    assert_eq!((rows[0].refresh_token.as_str(), rows[0].uid, rows[0].expiry, rows[0].used), ("c", 2, 30, false));

    tokens.delete_by_uid(2);
    assert_eq!(tokens.len(), 0);
    assert!(tokens.records().is_empty());
}

#[test]
fn pruning_deletes_what_expired_more_than_three_weeks_ago() {
    assert_eq!(PRUNE_AGE, 21 * 24 * 60 * 60);
    let mut tokens = RefreshTokens::new();
    let row = |token: &str, expiry: i64| Model {
        uid: 1,
        refresh_token: token.to_string(),
        expiry,
        used: false,
    };
    tokens.insert(row("long gone", T0 - PRUNE_AGE - 1));
    tokens.insert(row("on the day", T0 - PRUNE_AGE));
    tokens.insert(row("recent", T0 - 1));
    tokens.insert(row("live", T0 + 100));
    run_at(&mut tokens, T0);
    assert!(tokens.find_by_id("long gone").is_none());
    assert!(tokens.find_by_id("on the day").is_some());
    assert!(tokens.find_by_id("recent").is_some());
    assert!(tokens.find_by_id("live").is_some());

    // Before the epoch of the clock's range nothing is old enough.
    run_at(&mut tokens, i64::MIN + PRUNE_AGE);
    assert_eq!(tokens.len(), 3);
    run_at(&mut tokens, i64::MAX);
    assert_eq!(tokens.len(), 0);
}

#[test]
fn pruning_reads_the_clock() {
    let now = chrono::Utc::now().timestamp();
    let mut tokens = RefreshTokens::new();
    tokens.insert(Model { uid: 1, refresh_token: "old".to_string(), expiry: now - PRUNE_AGE - 60, used: true });
    tokens.insert(Model { uid: 1, refresh_token: "new".to_string(), expiry: now + 60, used: false });
    run(&mut tokens);
    assert!(tokens.find_by_id("old").is_none());
    assert!(tokens.find_by_id("new").is_some());
}
