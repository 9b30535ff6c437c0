use turbocore::admin::create_admin;
use turbocore::admin::login as admin_login;
use turbocore::auth::change_password::{self, check_reset_token, ChangePassBody};
use turbocore::auth::delete_user;
use turbocore::auth::email_verify::{self, VerifyBody};
use turbocore::auth::get_user;
use turbocore::auth::login::{self, LoginBody};
use turbocore::auth::logout::{self, LogoutBody};
use turbocore::auth::magic_link::{self, write_redirect_url, MagicBody};
use turbocore::auth::refresh::{self, RefreshBody};
use turbocore::auth::reset_password::{self, ResetPasswordRequest};
use turbocore::auth::signup::{self, SignupBody};
use turbocore::auth::update_user::{self, Metadata, UpdateUserBody};
use turbocore::auth::util::{flow_expires, issue_pair, mint_pair, ACCESS_LIFETIME};
use turbocore::claims::ClaimSet;
use turbocore::codec::{sign, verify, SigningKey};
use turbocore::config::{Argon2Config, Config, EmailConfig, TlsMode};
use turbocore::email::{ClientInfo, EmailParams};
use turbocore::entity::refresh_tokens::RefreshTokens;
use turbocore::entity::users::{Model, Stored, Users};
use turbocore::password::{
    estimate, hash_password, hash_with_salt, judge_strength, verify_password, write_weak_message,
    PasswordFault, Strength,
};
use turbocore::response::{
    api_error, ApiResponse, ErrorCode, Failure, JsonError, Reply, STATUS_BAD_REQUEST,
    STATUS_CONFLICT, STATUS_CREATED, STATUS_GONE, STATUS_INTERNAL_SERVER_ERROR,
    STATUS_NOT_FOUND, STATUS_OK, STATUS_UNAUTHORIZED,
};

const T0: i64 = 1_700_000_000;
const ALICE_ID: u128 = 0x6755d7b138f24a3ab87298d0e7bbd1ee;
const ALICE: &str = "6755d7b1-38f2-4a3a-b872-98d0e7bbd1ee";
const BOB_ID: u128 = 0x11111111222243338444555555555555;
const STRONG: &str = "Str0ng!Passw0rd";

fn light() -> Argon2Config {
    Argon2Config { salt_length: 16, memory: 64, iterations: 1, parallelism: 1, tag_length: 32 }
}

fn mail_settings() -> EmailConfig {
    EmailConfig {
        smtp_server: "smtp.example.com".to_string(),
        smtp_port: 587,
        smtp_username: "".to_string(),
        smtp_password: "".to_string(),
        smtp_encryption: "starttls".to_string(),
        from: "TurboCore <no-reply@example.com>".to_string(),
        reply_to: "support@example.com".to_string(),
        magic_link_subject: "Your link".to_string(),
        forgot_password_subject: "Reset your password".to_string(),
        confirmation_subject: "Confirm your address".to_string(),
    }
}

fn config(with_mail: bool) -> Config {
    Config {
        base_url: "http://turbocore".to_string(),
        connection_url: "sqlite::memory:".to_string(),
        secret_key: SigningKey { bytes: b"a_very_long_secret_key".to_vec() },
        debug_level: "debug".to_string(),
        bind_addr: "127.0.0.1:8080".to_string(),
        argon2_config: light(),
        minimum_password_strength: 1,
        mailer: if with_mail { Some(TlsMode::Opportunistic) } else { None },
        email: if with_mail { Some(mail_settings()) } else { None },
    }
}

fn mint_flow_token(
    tag: &str,
    uid: &str,
    next: Option<&str>,
    key: &SigningKey,
    now: i64,
) -> Option<(String, i64)> {
    let exp = flow_expires(now)?;
    let mut claims = ClaimSet::new();
    claims.insert("iss", "TurboCore");
    claims.insert("type", tag);
    claims.insert("uid", uid);
    claims.insert("exp", &exp.to_string());
    if let Some(next) = next {
        claims.insert("next", next);
    }
    sign(&claims, key).ok().map(|token| (token, exp))
}

fn good() -> Option<Strength> {
    Some(Strength { score: 4, warning: None })
}

fn salt() -> Vec<u8> {
    (0u8..16).collect()
}

fn signup_body(email: &str, password: &str, login: bool) -> SignupBody {
    SignupBody {
        email: email.to_string(),
        password: password.to_string(),
        email_verified: true,
        login,
        metadata: "{\"plan\":1}".to_string(),
    }
}

fn error_of(resp: &ApiResponse) -> (&str, &str) {
    match resp {
        ApiResponse::ApiError { message, error_code } => (error_code.as_str(), message.as_str()),
        other => panic!("no error: {:?}", other),
    }
}

fn reply_error(reply: &Reply) -> (&str, &str, u16) {
    match reply {
        Reply::Json(ApiResponse::ApiError { message, error_code }, status) => {
            (error_code.as_str(), message.as_str(), *status)
        },
        other => panic!("no error: {:?}", other),
    }
}

fn bearer_for(uid: &str, config: &Config, now: i64) -> Vec<u8> {
    let pair = mint_pair(uid, &config.secret_key, now, "abcde", false).unwrap();
    format!("Bearer {}", pair.access_token).into_bytes()
}

struct World {
    users: Users,
    tokens: RefreshTokens,
    resets: RefreshTokens,
    config: Config,
}

fn world_with_alice(with_mail: bool) -> World {
    let mut w = World {
        users: Users::new(),
        tokens: RefreshTokens::new(),
        resets: RefreshTokens::new(),
        config: config(with_mail),
    };
    let (_, status) = signup::handler_with(
        &mut w.users,
        &mut w.tokens,
        &w.config,
        &signup_body("a@example.com", STRONG, false),
        good(),
        ALICE_ID,
        &salt(),
        T0,
        "abcde",
    );
    assert_eq!(status, STATUS_CREATED);
    w
}

#[test]
fn signup_then_login_returns_tokens_for_the_same_user() {
    let mut w = world_with_alice(false);
    let body = LoginBody { email: "a@example.com".to_string(), password: STRONG.to_string() };
    let (resp, status) = login::handler_at(&w.users, &mut w.tokens, &w.config.secret_key, &body, T0 + 5, "fghij");
    assert_eq!(status, STATUS_OK);
    match resp {
        ApiResponse::LoginResponse { uid, token, expiry, refresh_token, email_verified, metadata } => {
            assert_eq!(uid, ALICE);
            assert_eq!(expiry, T0 + 5 + 915);
            assert!(email_verified);
            assert_eq!(metadata, "{\"plan\":1}");
            let at = verify(&token, &w.config.secret_key).unwrap();
            assert_eq!(at.get("uid"), Some(ALICE.to_string()));
            assert_eq!(at.get("type"), Some("at".to_string()));
            assert_eq!(at.get("role"), None);
            let rt = verify(&refresh_token, &w.config.secret_key).unwrap();
            assert_eq!(rt.get("uid"), Some(ALICE.to_string()));
            assert_eq!(rt.get("type"), Some("rt".to_string()));
            assert_eq!(rt.get("rand"), Some("fghij".to_string()));
            assert_eq!(w.tokens.find_by_id(&refresh_token).unwrap().uid, ALICE_ID);
        },
        other => panic!("unexpected response: {:?}", other),
    }
}

#[test]
fn login_tells_nothing_of_which_part_was_wrong() {
    let mut w = world_with_alice(false);
    let wrong_password = LoginBody { email: "a@example.com".to_string(), password: "Wr0ng!Passw0rd".to_string() };
    let wrong_email = LoginBody { email: "b@example.com".to_string(), password: STRONG.to_string() };
    for body in [wrong_password, wrong_email] {
        let (resp, status) = login::handler_at(&w.users, &mut w.tokens, &w.config.secret_key, &body, T0, "fghij");
        assert_eq!(status, STATUS_UNAUTHORIZED);
        assert_eq!(error_of(&resp), ("INVALID_CREDENTIALS", "The email or password is invalid"));
    }
    assert_eq!(w.tokens.len(), 0);
}

#[test]
fn login_refuses_a_disabled_user_and_an_unreadable_hash() {
    let mut users = Users::new();
    let user = |uid: u128, email: &str, password: &str, active: bool| Model {
        uid,
        email: email.to_string(),
        password: password.to_string(),
        created_at: T0,
        updated_at: T0,
        last_login: None,
        active,
        metadata: None,
        email_verified: false,
        is_admin: false,
    };
    let hash = hash_with_salt(STRONG, &salt(), &light()).unwrap();
    assert_eq!(users.insert(user(1, "off@example.com", &hash, false)), Stored::Done);
    assert_eq!(users.insert(user(2, "magic@example.com", "0", true)), Stored::Done);
    assert_eq!(users.insert(user(3, "plain@example.com", &hash, true)), Stored::Done);
    let mut tokens = RefreshTokens::new();
    let key = SigningKey { bytes: b"k".to_vec() };

    let body = LoginBody { email: "off@example.com".to_string(), password: STRONG.to_string() };
    let (resp, status) = login::handler_at(&users, &mut tokens, &key, &body, T0, "fghij");
    assert_eq!(status, STATUS_UNAUTHORIZED);
    assert_eq!(error_of(&resp), ("USER_DISABLED", "The user has been disabled by an administrator."));

    let body = LoginBody { email: "magic@example.com".to_string(), password: "0".to_string() };
    let (resp, status) = login::handler_at(&users, &mut tokens, &key, &body, T0, "fghij");
    assert_eq!(status, STATUS_INTERNAL_SERVER_ERROR);
    assert_eq!(error_of(&resp), ("INTERNAL_SERVER_ERROR", "An internal server error occurred."));

    let body = LoginBody { email: "plain@example.com".to_string(), password: STRONG.to_string() };
    let (resp, status) = login::handler(&users, &mut tokens, &key, &body);
    assert_eq!(status, STATUS_OK);
    match resp {
        ApiResponse::LoginResponse { metadata, .. } => assert_eq!(metadata, ""),
        other => panic!("unexpected response: {:?}", other),
    }
    assert_eq!(tokens.len(), 1);
}

#[test]
fn signup_checks_in_order() {
    let mut w = world_with_alice(false);
    let call = |w: &mut World, body: &SignupBody, estimate: Option<Strength>, uid: u128| {
        signup::handler_with(&mut w.users, &mut w.tokens, &w.config, body, estimate, uid, &salt(), T0, "abcde")
    };
    let weak = |warning: Option<&str>| Some(Strength { score: 0, warning: warning.map(|w| w.to_string()) });

    let (resp, status) = call(&mut w, &signup_body("a@example.", "", false), None, 9);
    assert_eq!((status, error_of(&resp)), (STATUS_BAD_REQUEST, ("INVALID_EMAIL", "The provided email is invalid.")));

    let (resp, status) = call(&mut w, &signup_body("a@example.com", "", false), None, 9);
    assert_eq!(
        (status, error_of(&resp)),
        (STATUS_BAD_REQUEST, ("INVALID_PASSWORD", "An empty password was provided."))
    );

    let (resp, status) = call(&mut w, &signup_body("a@example.com", "password", false), weak(None), 9);
    assert_eq!(
        (status, error_of(&resp)),
        (STATUS_BAD_REQUEST, ("INVALID_PASSWORD", "The password provided is too weak."))
    );

    let (resp, status) = call(&mut w, &signup_body("a@example.com", "password", false), weak(Some("Too common.")), 9);
    assert_eq!(
        (status, error_of(&resp)),
        (STATUS_BAD_REQUEST, ("INVALID_PASSWORD", "The password provided is too weak. Too common."))
    );

    let (resp, status) = call(&mut w, &signup_body("a@example.com", STRONG, true), good(), 9);
    assert_eq!((status, error_of(&resp)), (STATUS_CONFLICT, ("EMAIL_ALREADY_IN_USE", "This email is already in use.")));

    let (resp, status) = call(&mut w, &signup_body("b@example.com", STRONG, true), good(), ALICE_ID);
    assert_eq!(
        (status, error_of(&resp)),
        (STATUS_INTERNAL_SERVER_ERROR, ("INTERNAL_SERVER_ERROR", "Internal Server Error"))
    );
    assert_eq!(w.users.len(), 1);
    assert_eq!(w.tokens.len(), 0);

    // A score at the minimum is enough.
    let at_minimum = Some(Strength { score: 1, warning: Some("ignored".to_string()) });
    let (_, status) = call(&mut w, &signup_body("b@example.com", STRONG, false), at_minimum, BOB_ID);
    assert_eq!(status, STATUS_CREATED);
    let bob = w.users.find_by_email("b@example.com").unwrap();
    assert_eq!(bob.uid, BOB_ID);
    assert_eq!(bob.created_at, T0);
    assert_eq!(bob.updated_at, T0);
    assert_eq!(bob.last_login, None);
    assert!(bob.active && bob.email_verified && !bob.is_admin);
    assert_eq!(bob.metadata, Some("{\"plan\":1}".to_string()));
    assert_eq!(verify_password(&bob.password, STRONG), Ok(true));
}

#[test]
fn signup_fails_where_the_hash_cannot_be_made() {
    let mut w = world_with_alice(false);
    w.config.argon2_config.memory = 1;
    let (resp, status) = signup::handler_with(
        &mut w.users,
        &mut w.tokens,
        &w.config,
        &signup_body("b@example.com", STRONG, false),
        good(),
        BOB_ID,
        &salt(),
        T0,
        "abcde",
    );
    assert_eq!(status, STATUS_INTERNAL_SERVER_ERROR);
    assert_eq!(error_of(&resp).0, "INTERNAL_SERVER_ERROR");
    assert_eq!(w.users.len(), 1);
}

#[test]
fn the_end_to_end_session() {
    let mut users = Users::new();
    let mut tokens = RefreshTokens::new();
    let config = config(false);
    let body = SignupBody {
        email: "a@example.com".to_string(),
        password: STRONG.to_string(),
        email_verified: false,
        login: true,
        metadata: "".to_string(),
    };
    let (resp, status) = signup::handler(&mut users, &mut tokens, &config, &body);
    assert_eq!(status, 201);
    let (uid, token, refresh_token) = match resp {
        ApiResponse::LoginResponse { uid, token, refresh_token, .. } => (uid, token, refresh_token),
        other => panic!("unexpected response: {:?}", other),
    };
    assert!(uuid::Uuid::parse_str(&uid).is_ok());
    assert!(verify(&token, &config.secret_key).is_ok());

    // A new pair for the refresh token.
    let now = chrono::Utc::now().timestamp();
    let (resp, status) = refresh::handler_at(
        &mut tokens,
        &config.secret_key,
        &RefreshBody { refresh_token: refresh_token.clone() },
        now + 1,
        "fghij",
    );
    assert_eq!(status, 200);
    let new_refresh_token = match resp {
        ApiResponse::RefreshResponse { uid: again, refresh_token: new, .. } => {
            assert_eq!(again, uid);
            assert_ne!(new, refresh_token);
            new
        },
        other => panic!("unexpected response: {:?}", other),
    };

    // The original token once more.
    let (resp, status) =
        refresh::handler(&mut tokens, &config.secret_key, &RefreshBody { refresh_token: refresh_token.clone() });
    assert_eq!(status, 401);
    assert_eq!(error_of(&resp).0, "EXPIRED_JWT");

    // The token that was just issued is revoked with it.
    let (resp, status) =
        refresh::handler(&mut tokens, &config.secret_key, &RefreshBody { refresh_token: new_refresh_token });
    assert_eq!(status, 401);
    assert_eq!(error_of(&resp).0, "EXPIRED_JWT");
    assert_eq!(tokens.len(), 0);
}

#[test]
fn a_duplicate_signup_creates_no_second_user() {
    let mut w = world_with_alice(false);
    for (n, uid) in [(1, 21u128), (2, 22), (3, 23)] {
        let (resp, status) = signup::handler_with(
            &mut w.users,
            &mut w.tokens,
            &w.config,
            &signup_body("a@example.com", STRONG, true),
            good(),
            uid,
            &salt(),
            T0 + n,
            "abcde",
        );
        assert_eq!(status, STATUS_CONFLICT);
        assert_eq!(error_of(&resp).0, "EMAIL_ALREADY_IN_USE");
        assert_eq!(w.users.len(), 1);
        assert!(w.users.find_by_id(uid).is_none());
    }
    assert_eq!(w.users.find_by_email("a@example.com").unwrap().uid, ALICE_ID);
    assert_eq!(w.tokens.len(), 0);
}

#[test]
fn the_users_table_keeps_ids_and_addresses_apart() {
    let mut users = Users::new();
    let user = |uid: u128, email: &str| Model {
        uid,
        email: email.to_string(),
        password: "0".to_string(),
        created_at: 1,
        updated_at: 2,
        last_login: Some(3),
        active: true,
        metadata: Some("m".to_string()),
        email_verified: false,
        is_admin: false,
    };
    assert_eq!(users.insert(user(1, "a@x.io")), Stored::Done);
    assert_eq!(users.insert(user(2, "b@x.io")), Stored::Done);
    assert_eq!(users.insert(user(3, "a@x.io")), Stored::EmailTaken);
    assert_eq!(users.insert(user(1, "c@x.io")), Stored::IdMismatch);
    assert_eq!(users.insert(user(1, "a@x.io")), Stored::EmailTaken);
    assert_eq!(users.len(), 2);
    users.attest();

    assert_eq!(users.update(user(3, "c@x.io")), Stored::IdMismatch);
    assert_eq!(users.update(user(2, "a@x.io")), Stored::EmailTaken);
    assert_eq!(users.find_by_id(2).unwrap().email, "b@x.io");
    assert_eq!(users.update(user(2, "c@x.io")), Stored::Done);
    assert_eq!(users.update(user(2, "c@x.io")), Stored::Done);
    assert!(users.find_by_email("b@x.io").is_none());
    let found = users.find_by_email("c@x.io").unwrap();
    assert_eq!((found.uid, found.last_login, found.metadata.clone()), (2, Some(3), Some("m".to_string())));
    let copy = found.copy();
    assert_eq!((copy.uid, copy.email.as_str(), copy.created_at, copy.updated_at), (2, "c@x.io", 1, 2));

    let mut ids: Vec<u128> = users.records().iter().map(|u| u.uid).collect();
    ids.sort();
    assert_eq!(ids, vec![1, 2]);

    users.delete_by_id(7);
    assert_eq!(users.len(), 2);
    users.delete_by_id(1);
    assert_eq!(users.len(), 1);
    assert!(users.find_by_id(1).is_none());
    assert_eq!(users.insert(user(9, "a@x.io")), Stored::Done);
}

#[test]
fn a_password_is_changed_with_the_old_password() {
    let mut w = world_with_alice(false);
    let header = bearer_for(ALICE, &w.config, T0);
    let change = |w: &mut World, old: &str, new: &str, estimate: Option<Strength>, now: i64| {
        let body = ChangePassBody { old_password: old.to_string(), new_password: new.to_string() };
        change_password::handler_with(
            &mut w.users,
            &mut w.resets,
            &w.config,
            Some(header.as_slice()),
            &body,
            estimate,
            &salt(),
            now,
        )
    };
    let reply = change(&mut w, "Wr0ng!Passw0rd", "N3w!Passw0rd#2", good(), T0);
    assert_eq!(
        reply_error(&reply),
        ("INVALID_CREDENTIALS", "The provided email and password do not match.", STATUS_UNAUTHORIZED)
    );
    let reply = change(&mut w, STRONG, "", None, T0);
    assert_eq!(reply_error(&reply), ("INVALID_PASSWORD", "An empty password was provided.", STATUS_BAD_REQUEST));
    let reply = change(&mut w, STRONG, "abc", Some(Strength { score: 0, warning: Some("Short.".to_string()) }), T0);
    assert_eq!(
        reply_error(&reply),
        ("INVALID_PASSWORD", "The password provided is too weak. Short.", STATUS_BAD_REQUEST)
    );
    let reply = change(&mut w, STRONG, "N3w!Passw0rd#2", good(), T0 + ACCESS_LIFETIME + 1);
    assert_eq!(reply_error(&reply), ("BAD_TOKEN", "The JWT has already expired", STATUS_UNAUTHORIZED));
    assert_eq!(verify_password(&w.users.find_by_id(ALICE_ID).unwrap().password, STRONG), Ok(true));

    let reply = change(&mut w, STRONG, "N3w!Passw0rd#2", good(), T0);
    assert!(matches!(reply, Reply::Empty(STATUS_OK)));
    let stored = w.users.find_by_id(ALICE_ID).unwrap();
    assert_eq!(verify_password(&stored.password, "N3w!Passw0rd#2"), Ok(true));
    assert_eq!(verify_password(&stored.password, STRONG), Ok(false));
    assert_eq!(stored.email, "a@example.com");
}

#[test]
fn a_reset_token_changes_the_password_once() {
    let mut w = world_with_alice(true);
    let request = ResetPasswordRequest {
        email: "a@example.com".to_string(),
        reset_url: "https://app.example.com/reset".to_string(),
    };
    let (reply, mail) = reset_password::handler_at(&w.users, &mut w.resets, &w.config, &request, &None, T0);
    assert!(matches!(reply, Reply::Empty(STATUS_OK)));
    let mail = mail.unwrap();
    let token = mail.action_url.strip_prefix("https://app.example.com/reset?token=").unwrap().to_string();
    let record = w.resets.find_by_id(&token).unwrap();
    assert_eq!((record.uid, record.expiry, record.used), (ALICE_ID, T0 + 900, false));

    let header = bearer_for(ALICE, &w.config, T0);
    let change = |w: &mut World, new: &str, now: i64| {
        let body = ChangePassBody { old_password: token.clone(), new_password: new.to_string() };
        change_password::handler_with(
            &mut w.users,
            &mut w.resets,
            &w.config,
            Some(header.as_slice()),
            &body,
            good(),
            &salt(),
            now,
        )
    };
    let reply = change(&mut w, "N3w!Passw0rd#2", T0 + 901);
    assert_eq!(
        reply_error(&reply),
        ("INVALID_TOKEN", "The password reset token has already expired", STATUS_BAD_REQUEST)
    );
    assert_eq!(w.resets.len(), 1);

    let reply = change(&mut w, "N3w!Passw0rd#2", T0 + 900);
    assert!(matches!(reply, Reply::Empty(STATUS_OK)));
    assert_eq!(w.resets.len(), 0);
    assert_eq!(verify_password(&w.users.find_by_id(ALICE_ID).unwrap().password, "N3w!Passw0rd#2"), Ok(true));

    let reply = change(&mut w, "An0ther!Passw0rd", T0 + 10);
    assert_eq!(reply_error(&reply), ("INVALID_TOKEN", "The provided token is invalid.", STATUS_BAD_REQUEST));
    assert_eq!(verify_password(&w.users.find_by_id(ALICE_ID).unwrap().password, "N3w!Passw0rd#2"), Ok(true));
}

#[test]
fn a_token_of_another_type_is_no_reset_token() {
    let mut w = world_with_alice(false);
    let header = bearer_for(ALICE, &w.config, T0);
    let access = mint_pair(ALICE, &w.config.secret_key, T0, "abcde", false).unwrap().access_token;
    let body = ChangePassBody { old_password: access, new_password: "N3w!Passw0rd#2".to_string() };
    let reply = change_password::handler_with(
        &mut w.users,
        &mut w.resets,
        &w.config,
        Some(header.as_slice()),
        &body,
        good(),
        &salt(),
        T0,
    );
    assert_eq!(reply_error(&reply), ("INVALID_TOKEN", "The provided token is invalid.", STATUS_BAD_REQUEST));

    assert_eq!(check_reset_token(&None, false, T0), Ok(false));
    assert_eq!(check_reset_token(&None, true, T0), Ok(false));
    let (token, _) = mint_flow_token("password_reset", ALICE, None, &w.config.secret_key, T0).unwrap();
    let claims = Some(verify(&token, &w.config.secret_key).unwrap());
    assert_eq!(check_reset_token(&claims, true, T0 + 900), Ok(true));
    assert_eq!(check_reset_token(&claims, false, T0 + 900), Err(Failure::TokenInvalid));
    assert_eq!(check_reset_token(&claims, true, T0 + 901), Err(Failure::ResetTokenExpired));
}

#[test]
fn changing_the_password_of_a_deleted_user_finds_nobody() {
    let mut w = world_with_alice(false);
    let header = bearer_for(ALICE, &w.config, T0);
    let reply = delete_user::handler_at(&mut w.users, &mut w.tokens, &w.config.secret_key, Some(header.as_slice()), T0);
    assert!(matches!(reply, Reply::Empty(STATUS_OK)));
    let body = ChangePassBody { old_password: STRONG.to_string(), new_password: "N3w!Passw0rd#2".to_string() };
    let reply = change_password::handler(&mut w.users, &mut w.resets, &w.config, Some(header.as_slice()), &body);
    // The access token minted at T0 has long expired by the clock.
    assert_eq!(reply_error(&reply).0, "BAD_TOKEN");
    let reply = change_password::handler_with(
        &mut w.users,
        &mut w.resets,
        &w.config,
        Some(header.as_slice()),
        &body,
        good(),
        &salt(),
        T0,
    );
    assert_eq!(reply_error(&reply), ("USER_NOT_FOUND", "The user does not exist.", STATUS_NOT_FOUND));
}

#[test]
fn logout_revokes_one_token_or_all() {
    let mut w = world_with_alice(false);
    let key = SigningKey { bytes: w.config.secret_key.bytes.clone() };
    let one = issue_pair(&mut w.tokens, ALICE, &key, T0, "aaaaa", false).unwrap();
    let two = issue_pair(&mut w.tokens, ALICE, &key, T0, "bbbbb", false).unwrap();
    let bob = issue_pair(&mut w.tokens, "11111111-2222-4333-8444-555555555555", &key, T0, "ccccc", false).unwrap();
    let header = format!("Bearer {}", one.access_token).into_bytes();

    let reply = logout::handler_at(&mut w.tokens, &key, None, &LogoutBody { refresh_token: None }, T0);
    assert_eq!(reply_error(&reply).0, "NOT_AUTHENTICATED");
    assert_eq!(w.tokens.len(), 3);

    let body = LogoutBody { refresh_token: Some(one.refresh_token.clone()) };
    for _ in 0..2 {
        let reply = logout::handler_at(&mut w.tokens, &key, Some(header.as_slice()), &body, T0);
        assert!(matches!(reply, Reply::Empty(STATUS_OK)));
        assert_eq!(w.tokens.len(), 2);
    }
    assert!(w.tokens.find_by_id(&one.refresh_token).is_none());

    let reply = logout::handler_at(&mut w.tokens, &key, Some(header.as_slice()), &LogoutBody { refresh_token: None }, T0);
    assert!(matches!(reply, Reply::Empty(STATUS_OK)));
    assert!(w.tokens.find_by_id(&two.refresh_token).is_none());
    assert!(w.tokens.find_by_id(&bob.refresh_token).is_some());
    assert_eq!(reply.status_code(), 200);

    let reply = logout::handler(&mut w.tokens, &key, Some(header.as_slice()), &LogoutBody { refresh_token: None });
    assert_eq!(reply_error(&reply), ("BAD_TOKEN", "The JWT has already expired", STATUS_UNAUTHORIZED));
}

#[test]
fn deleting_a_user_deletes_its_sessions() {
    let mut w = world_with_alice(false);
    let key = SigningKey { bytes: w.config.secret_key.bytes.clone() };
    let pair = issue_pair(&mut w.tokens, ALICE, &key, T0, "aaaaa", false).unwrap();
    issue_pair(&mut w.tokens, "11111111-2222-4333-8444-555555555555", &key, T0, "ccccc", false).unwrap();
    let header = format!("Bearer {}", pair.access_token).into_bytes();
    let reply = delete_user::handler_at(&mut w.users, &mut w.tokens, &key, Some(b"Bearer x".as_slice()), T0);
    assert_eq!(reply_error(&reply).0, "BAD_TOKEN");
    assert_eq!((w.users.len(), w.tokens.len()), (1, 2));
    let reply = delete_user::handler_at(&mut w.users, &mut w.tokens, &key, Some(header.as_slice()), T0);
    assert!(matches!(reply, Reply::Empty(STATUS_OK)));
    assert_eq!((w.users.len(), w.tokens.len()), (0, 1));
    let reply = delete_user::handler(&mut w.users, &mut w.tokens, &key, Some(header.as_slice()));
    assert_eq!(reply_error(&reply).0, "BAD_TOKEN");
}

#[test]
fn the_user_record_is_shown_to_its_user() {
    let w = world_with_alice(false);
    let header = bearer_for(ALICE, &w.config, T0);
    let (resp, status) = get_user::handler_at(&w.users, &w.config.secret_key, Some(header.as_slice()), T0);
    assert_eq!(status, STATUS_OK);
    match resp {
        ApiResponse::UserResponse { uid, email, created_at, updated_at, last_login, active, metadata, email_verified } => {
            assert_eq!(uid, ALICE);
            assert_eq!(email, "a@example.com");
            assert_eq!((created_at, updated_at, last_login), (T0, T0, None));
            assert!(active && email_verified);
            assert_eq!(metadata, Some("{\"plan\":1}".to_string()));
        },
        other => panic!("unexpected response: {:?}", other),
    }
    let stranger = bearer_for("11111111-2222-4333-8444-555555555555", &w.config, T0);
    let (resp, status) = get_user::handler_at(&w.users, &w.config.secret_key, Some(stranger.as_slice()), T0);
    assert_eq!((status, error_of(&resp)), (STATUS_NOT_FOUND, ("USER_NOT_FOUND", "The user was not found.")));
    let (resp, status) = get_user::handler(&w.users, &w.config.secret_key, None);
    assert_eq!((status, error_of(&resp).0), (STATUS_UNAUTHORIZED, "NOT_AUTHENTICATED"));
}

#[test]
fn a_user_updates_address_and_metadata() {
    let mut w = world_with_alice(false);
    signup::handler_with(
        &mut w.users,
        &mut w.tokens,
        &w.config,
        &signup_body("b@example.com", STRONG, false),
        good(),
        BOB_ID,
        &salt(),
        T0,
        "abcde",
    );
    let header = bearer_for(ALICE, &w.config, T0);
    let update = |w: &mut World, email: Option<&str>, metadata: Option<Metadata>| {
        let body = UpdateUserBody { email: email.map(|e| e.to_string()), metadata };
        update_user::handler_at(&mut w.users, &w.config.secret_key, Some(header.as_slice()), &body, T0)
    };
    assert!(matches!(update(&mut w, None, None), Reply::Empty(STATUS_OK)));
    assert_eq!(w.users.find_by_id(ALICE_ID).unwrap().email, "a@example.com");

    assert!(matches!(update(&mut w, None, Some(Metadata::Data("x".to_string()))), Reply::Empty(STATUS_OK)));
    assert_eq!(w.users.find_by_id(ALICE_ID).unwrap().metadata, Some("x".to_string()));
    assert!(matches!(update(&mut w, Some("c@example.com"), Some(Metadata::Nothing)), Reply::Empty(STATUS_OK)));
    let alice = w.users.find_by_id(ALICE_ID).unwrap();
    assert_eq!((alice.email.as_str(), alice.metadata.clone()), ("c@example.com", None));
    assert_eq!(verify_password(&alice.password, STRONG), Ok(true));

    let reply = update(&mut w, Some("b@example.com"), None);
    assert_eq!(
        reply_error(&reply),
        ("INTERNAL_SERVER_ERROR", "An internal server error occurred.", STATUS_INTERNAL_SERVER_ERROR)
    );
    assert_eq!(w.users.find_by_id(ALICE_ID).unwrap().email, "c@example.com");

    let stranger = bearer_for("99999999-2222-4333-8444-555555555555", &w.config, T0);
    let body = UpdateUserBody { email: None, metadata: None };
    let reply = update_user::handler_at(&mut w.users, &w.config.secret_key, Some(stranger.as_slice()), &body, T0);
    assert_eq!(reply_error(&reply), ("USER_NOT_FOUND", "The user was not found.", STATUS_BAD_REQUEST));
    let reply = update_user::handler(&mut w.users, &w.config.secret_key, None, &body);
    assert_eq!(reply_error(&reply).0, "NOT_AUTHENTICATED");
}

#[test]
fn a_reset_request_tells_nothing_of_who_has_an_account() {
    let mut w = world_with_alice(true);
    let request = |email: &str| ResetPasswordRequest {
        email: email.to_string(),
        reset_url: "https://app/reset".to_string(),
    };
    let client = Some(ClientInfo { os: "Linux".to_string(), device: "Other".to_string() });
    let (reply, mail) =
        reset_password::handler_at(&w.users, &mut w.resets, &w.config, &request("nobody@example.com"), &client, T0);
    assert!(matches!(reply, Reply::Empty(STATUS_OK)));
    assert!(mail.is_none());
    assert_eq!(w.resets.len(), 0);

    let (reply, mail) =
        reset_password::handler_at(&w.users, &mut w.resets, &w.config, &request("a@example.com"), &client, T0);
    assert!(matches!(reply, Reply::Empty(STATUS_OK)));
    let mail: EmailParams = mail.unwrap();
    assert_eq!(mail.name, "a@example.com");
    assert_eq!(mail.to, "a@example.com");
    assert_eq!(mail.subject, "Reset your password");
    assert_eq!(mail.from, "TurboCore <no-reply@example.com>");
    assert_eq!(mail.reply_to, "support@example.com");
    assert_eq!((mail.os.as_str(), mail.device.as_str()), ("Linux", "Other"));
    let (token, exp) = mint_flow_token("password_reset", ALICE, None, &w.config.secret_key, T0).unwrap();
    assert_eq!(exp, T0 + 900);
    assert_eq!(mail.action_url, format!("https://app/reset?token={}", token));
    assert_eq!(w.resets.len(), 1);

    // Asked again within the second, the same token is sent and kept once.
    let (_, mail) = reset_password::handler_at(&w.users, &mut w.resets, &w.config, &request("a@example.com"), &None, T0);
    let mail = mail.unwrap();
    assert_eq!((mail.os.as_str(), mail.device.as_str()), ("Unknown", "Unknown"));
    assert_eq!(w.resets.len(), 1);

    w.config.mailer = None;
    let (reply, mail) = reset_password::handler(&w.users, &mut w.resets, &w.config, &request("a@example.com"), &None);
    assert_eq!(
        reply_error(&reply),
        ("EMAIL_NOT_CONFIGURED", "The server is not configured to send emails.", STATUS_BAD_REQUEST)
    );
    assert!(mail.is_none());
}

#[test]
fn an_address_is_verified_by_its_link() {
    let mut users = Users::new();
    let mut tokens = RefreshTokens::new();
    let config = config(true);
    let mut body = signup_body("a@example.com", STRONG, false);
    body.email_verified = false;
    signup::handler_with(&mut users, &mut tokens, &config, &body, good(), ALICE_ID, &salt(), T0, "abcde");
    let header = bearer_for(ALICE, &config, T0);
    let next = VerifyBody { next_url: "https://app/welcome".to_string() };

    let (reply, mail) = email_verify::send_handler_at(&users, &config, Some(header.as_slice()), &next, &None, T0);
    assert!(matches!(reply, Reply::Empty(STATUS_OK)));
    let mail = mail.unwrap();
    assert_eq!(mail.subject, "Confirm your address");
    assert_eq!((mail.name.as_str(), mail.to.as_str()), ("a@example.com", "a@example.com"));
    let token = mail.action_url.strip_prefix("http://turbocore/api/auth/user/verify-email/").unwrap().to_string();

    let key = &config.secret_key;
    assert!(matches!(email_verify::receive_handler_at(&mut users, key, "junk", T0), Reply::Empty(STATUS_BAD_REQUEST)));
    assert!(matches!(email_verify::receive_handler_at(&mut users, key, &token, T0 + 901), Reply::Empty(STATUS_GONE)));
    let access = mint_pair(ALICE, key, T0, "abcde", false).unwrap().access_token;
    assert!(matches!(email_verify::receive_handler_at(&mut users, key, &access, T0), Reply::Empty(STATUS_BAD_REQUEST)));
    let (orphan, _) =
        mint_flow_token("email-verification", "11111111-2222-4333-8444-555555555555", Some("n"), key, T0).unwrap();
    assert!(matches!(email_verify::receive_handler_at(&mut users, key, &orphan, T0), Reply::Empty(STATUS_NOT_FOUND)));
    let (aimless, _) = mint_flow_token("email-verification", ALICE, None, key, T0).unwrap();
    assert!(matches!(email_verify::receive_handler_at(&mut users, key, &aimless, T0), Reply::Empty(STATUS_BAD_REQUEST)));
    assert!(!users.find_by_id(ALICE_ID).unwrap().email_verified);

    for _ in 0..2 {
        match email_verify::receive_handler_at(&mut users, key, &token, T0 + 900) {
            Reply::Redirect(to) => assert_eq!(to, "https://app/welcome/?verified=true"),
            other => panic!("unexpected reply: {:?}", other),
        }
        assert!(users.find_by_id(ALICE_ID).unwrap().email_verified);
    }
    assert!(matches!(email_verify::receive_handler(&mut users, key, &token), Reply::Empty(STATUS_GONE)));

    let (reply, mail) = email_verify::send_handler_at(&users, &config, Some(header.as_slice()), &next, &None, T0);
    assert_eq!(reply_error(&reply), ("ALREADY_VERIFIED", "The user is already verified.", STATUS_BAD_REQUEST));
    assert!(mail.is_none());
    let stranger = bearer_for("11111111-2222-4333-8444-555555555555", &config, T0);
    let (reply, _) = email_verify::send_handler_at(&users, &config, Some(stranger.as_slice()), &next, &None, T0);
    assert_eq!(reply_error(&reply), ("USER_NOT_FOUND", "The user was not found", STATUS_NOT_FOUND));
    let (reply, _) = email_verify::send_handler(&users, &config, None, &next, &None);
    assert_eq!(reply_error(&reply).0, "NOT_AUTHENTICATED");
}

#[test]
fn a_verification_mail_needs_a_mail_server() {
    let mut users = Users::new();
    let mut tokens = RefreshTokens::new();
    let config = config(false);
    let mut body = signup_body("a@example.com", STRONG, false);
    body.email_verified = false;
    signup::handler_with(&mut users, &mut tokens, &config, &body, good(), ALICE_ID, &salt(), T0, "abcde");
    let header = bearer_for(ALICE, &config, T0);
    let next = VerifyBody { next_url: "https://app/welcome".to_string() };
    let (reply, mail) = email_verify::send_handler_at(&users, &config, Some(header.as_slice()), &next, &None, T0);
    assert_eq!(reply_error(&reply).0, "EMAIL_NOT_CONFIGURED");
    assert!(mail.is_none());
}

#[test]
fn a_magic_link_signs_up_and_logs_in() {
    let mut w = world_with_alice(true);
    let ask = |w: &mut World, email: &str, sign_up: bool, uid: u128| {
        let body = MagicBody { next_url: "https://app/in".to_string(), email: email.to_string(), sign_up };
        magic_link::post_handler_with(&mut w.users, &w.config, &body, &None, uid, T0)
    };
    let (reply, mail) = ask(&mut w, "a@example.com", true, 50);
    assert_eq!(reply_error(&reply), ("USER_ALREADY_EXISTS", "The user already exists.", STATUS_BAD_REQUEST));
    assert!(mail.is_none());
    let (reply, _) = ask(&mut w, "new@example.com", false, 50);
    assert_eq!(reply_error(&reply), ("USER_DOES_NOT_EXIST", "The user does not exist.", STATUS_BAD_REQUEST));
    let (reply, _) = ask(&mut w, "new@example.com", true, ALICE_ID);
    assert_eq!(reply_error(&reply), ("INTERNAL_SERVER_ERROR", "Internal Server Error", STATUS_INTERNAL_SERVER_ERROR));
    assert_eq!(w.users.len(), 1);

    let (reply, mail) = ask(&mut w, "new@example.com", true, BOB_ID);
    assert!(matches!(reply, Reply::Empty(STATUS_OK)));
    let created = w.users.find_by_id(BOB_ID).unwrap();
    assert_eq!((created.email.as_str(), created.password.as_str()), ("new@example.com", "0"));
    assert_eq!((created.created_at, created.updated_at, created.metadata.clone()), (T0, T0, None));
    assert!(created.active && !created.email_verified && !created.is_admin);
    let mail = mail.unwrap();
    assert_eq!((mail.to.as_str(), mail.subject.as_str()), ("new@example.com", "Confirm your address"));
    let token = mail.action_url.strip_prefix("http://turbocore/api/auth/user/magic-link/").unwrap().to_string();

    let key = SigningKey { bytes: w.config.secret_key.bytes.clone() };
    let reply = magic_link::get_handler_at(&w.users, &mut w.tokens, &key, "junk", T0, "fghij");
    assert_eq!(reply_error(&reply), ("INVALID_TOKEN", "The provided was invalid.", STATUS_BAD_REQUEST));
    let reply = magic_link::get_handler_at(&w.users, &mut w.tokens, &key, &token, T0 + 901, "fghij");
    assert_eq!(reply_error(&reply), ("EXPIRED_TOKEN", "The token has already expired", STATUS_BAD_REQUEST));
    let access = mint_pair(ALICE, &key, T0, "abcde", false).unwrap().access_token;
    let reply = magic_link::get_handler_at(&w.users, &mut w.tokens, &key, &access, T0, "fghij");
    assert_eq!(reply_error(&reply), ("INVALID_TOKEN", "The provided token is invalid.", STATUS_BAD_REQUEST));
    let (orphan, _) = mint_flow_token("magic-link", "99999999-2222-4333-8444-555555555555", Some("n"), &key, T0).unwrap();
    let reply = magic_link::get_handler_at(&w.users, &mut w.tokens, &key, &orphan, T0, "fghij");
    assert_eq!(reply_error(&reply), ("USER_DOES_NOT_EXIST", "The user does not exist.", STATUS_BAD_REQUEST));
    assert_eq!(w.tokens.len(), 0);

    let reply = magic_link::get_handler_at(&w.users, &mut w.tokens, &key, &token, T0 + 900, "fghij");
    let bob = "11111111-2222-4333-8444-555555555555";
    let pair = mint_pair(bob, &key, T0 + 900, "fghij", false).unwrap();
    match &reply {
        Reply::Redirect(to) => assert_eq!(
            to,
            &format!(
                "https://app/in?uid={}&at={}&rt={}&exp={}",
                bob,
                pair.access_token,
                pair.refresh_token,
                T0 + 900 + 915
            )
        ),
        other => panic!("unexpected reply: {:?}", other),
    }
    assert_eq!(reply.status_code(), 302);
    assert_eq!(w.tokens.find_by_id(&pair.refresh_token).unwrap().uid, BOB_ID);

    // An existing user asks for a link to log in.
    let (reply, mail) = ask(&mut w, "a@example.com", false, 50);
    assert!(matches!(reply, Reply::Empty(STATUS_OK)));
    assert!(mail.is_some());
    assert_eq!(w.users.len(), 2);
    let reply = magic_link::get_handler(&w.users, &mut w.tokens, &key, &token);
    assert_eq!(reply_error(&reply).0, "EXPIRED_TOKEN");

    w.config.email = None;
    let body = MagicBody { next_url: "n".to_string(), email: "a@example.com".to_string(), sign_up: false };
    let (reply, _) = magic_link::post_handler(&mut w.users, &w.config, &body, &None);
    assert_eq!(reply_error(&reply).0, "EMAIL_NOT_CONFIGURED");
}

#[test]
fn the_redirect_adds_to_a_query_that_is_there() {
    assert_eq!(write_redirect_url("https://a/b", "u", "x", "y", 7), "https://a/b?uid=u&at=x&rt=y&exp=7");
    assert_eq!(write_redirect_url("https://a/b?c=d", "u", "x", "y", -7), "https://a/b?c=d&uid=u&at=x&rt=y&exp=-7");
    assert_eq!(write_redirect_url("", "", "", "", 0), "?uid=&at=&rt=&exp=0");
}

#[test]
fn an_administrator_is_created_and_logs_in() {
    let mut w = world_with_alice(false);
    let create = |w: &mut World, email: &str, login: bool, estimate: Option<Strength>, uid: u128| {
        let body = create_admin::SignupBody { email: email.to_string(), password: STRONG.to_string(), login };
        create_admin::handler_with(&mut w.users, &mut w.tokens, &w.config, &body, estimate, uid, &salt(), T0, "abcde")
    };
    let (resp, status) = create(&mut w, "root@example.com", false, None, 70);
    assert_eq!((status, error_of(&resp)), (STATUS_BAD_REQUEST, ("INVALID_PASSWORD", "An invalid password was provided.")));
    let (resp, status) = create(&mut w, "root@example.com", false, Some(Strength { score: 0, warning: None }), 70);
    assert_eq!((status, error_of(&resp)), (STATUS_BAD_REQUEST, ("WEAK_PASSWORD", "The password provided is too weak.")));
    let (resp, status) = create(&mut w, "a@example.com", false, good(), 70);
    assert_eq!((status, error_of(&resp)), (STATUS_CONFLICT, ("EMAIL_IN_USE", "The email provided is already in use.")));
    let (resp, status) = create(&mut w, "root@example.com", false, good(), ALICE_ID);
    assert_eq!(
        (status, error_of(&resp)),
        (STATUS_INTERNAL_SERVER_ERROR, ("INTERNAL_SERVER_ERROR", "Internal Server Error."))
    );

    let (resp, status) = create(&mut w, "not an address", true, good(), BOB_ID);
    assert_eq!(status, STATUS_CREATED);
    match resp {
        ApiResponse::LoginResponse { uid, token, email_verified, metadata, .. } => {
            assert_eq!(uid, "11111111-2222-4333-8444-555555555555");
            assert!(email_verified);
            assert_eq!(metadata, "");
            let claims = verify(&token, &w.config.secret_key).unwrap();
            assert_eq!(claims.get("role"), Some("admin".to_string()));
        },
        other => panic!("unexpected response: {:?}", other),
    }
    let root = w.users.find_by_id(BOB_ID).unwrap();
    assert!(root.is_admin && root.active && root.email_verified);
    assert_eq!(root.metadata, Some("".to_string()));

    let key = SigningKey { bytes: w.config.secret_key.bytes.clone() };
    let body = admin_login::LoginBody { email: "not an address".to_string(), password: STRONG.to_string() };
    let (resp, status) = admin_login::handler_at(&w.users, &mut w.tokens, &key, &body, T0 + 1, "fghij");
    assert_eq!(status, STATUS_OK);
    match resp {
        ApiResponse::LoginResponse { token, .. } => {
            assert_eq!(verify(&token, &key).unwrap().get("role"), Some("admin".to_string()));
        },
        other => panic!("unexpected response: {:?}", other),
    }
    // An ordinary user is no administrator.
    let body = admin_login::LoginBody { email: "a@example.com".to_string(), password: STRONG.to_string() };
    let (resp, status) = admin_login::handler(&w.users, &mut w.tokens, &key, &body);
    assert_eq!((status, error_of(&resp).0), (STATUS_UNAUTHORIZED, "INVALID_CREDENTIALS"));

    let body = create_admin::SignupBody { email: "second@example.com".to_string(), password: STRONG.to_string(), login: false };
    let (resp, status) = create_admin::handler(&mut w.users, &mut w.tokens, &w.config, &body);
    assert_eq!(status, STATUS_CREATED);
    assert!(matches!(resp, ApiResponse::SignupResponse { .. }));
}

#[test]
fn passwords_are_hashed_with_argon2id() {
    let hash = hash_with_salt("hunter2hunter2", &salt(), &light()).unwrap();
    assert!(hash.starts_with("$argon2id$v=19$m=64,t=1,p=1$"));
    assert_ne!(hash, "hunter2hunter2");
    assert_eq!(hash_with_salt("hunter2hunter2", &salt(), &light()).unwrap(), hash);
    assert_ne!(hash_with_salt("hunter2hunter3", &salt(), &light()).unwrap(), hash);
    assert_eq!(verify_password(&hash, "hunter2hunter2"), Ok(true));
    assert_eq!(verify_password(&hash, "hunter2hunter3"), Ok(false));
    assert!(verify_password("0", "0").is_err());
    assert!(verify_password("hunter2hunter2", "hunter2hunter2").is_err());
    assert!(hash_with_salt("pw", &vec![1, 2, 3], &light()).is_err());

    let random = hash_password("hunter2hunter2", &light()).unwrap();
    assert_ne!(random, hash);
    assert_eq!(verify_password(&random, "hunter2hunter2"), Ok(true));
    let mut short = light();
    short.salt_length = 7;
    assert!(hash_password("hunter2hunter2", &short).is_err());
}

#[test]
fn the_strength_of_a_password_is_estimated() {
    assert!(estimate("").is_none());
    let weak = estimate("password").unwrap();
    assert_eq!(weak.score, 0);
    assert!(weak.warning.is_some());
    let strong = estimate("a_strong_password1111011").unwrap();
    assert!(strong.score >= 3 && strong.score <= 4);

    assert!(matches!(judge_strength(estimate(""), 0), Some(PasswordFault::Unusable)));
    assert!(matches!(judge_strength(estimate("password"), 1), Some(PasswordFault::Weak(Some(_)))));
    assert!(judge_strength(estimate("password"), 0).is_none());
    assert!(judge_strength(estimate("a_strong_password1111011"), 3).is_none());

    assert!(matches!(judge_strength(None, 0), Some(PasswordFault::Unusable)));
    assert!(judge_strength(Some(Strength { score: 2, warning: None }), 2).is_none());
    assert!(matches!(judge_strength(Some(Strength { score: 2, warning: None }), 3), Some(PasswordFault::Weak(None))));
    assert_eq!(write_weak_message(&None), "The password provided is too weak.");
    assert_eq!(write_weak_message(&Some("Why.".to_string())), "The password provided is too weak. Why.");
}

#[test]
fn every_failure_has_its_code_and_status() {
    let cases = [
        (Failure::InvalidEmail, "INVALID_EMAIL", 400),
        (Failure::EmptyPassword, "INVALID_PASSWORD", 400),
        (Failure::InvalidPassword, "INVALID_PASSWORD", 400),
        (Failure::EmailAlreadyInUse, "EMAIL_ALREADY_IN_USE", 409),
        (Failure::EmailInUse, "EMAIL_IN_USE", 409),
        (Failure::InvalidCredentials, "INVALID_CREDENTIALS", 401),
        (Failure::PasswordMismatch, "INVALID_CREDENTIALS", 401),
        (Failure::UserDisabled, "USER_DISABLED", 401),
        (Failure::UserMissing, "USER_NOT_FOUND", 404),
        (Failure::UserNotFound, "USER_NOT_FOUND", 404),
        (Failure::UserNotFoundBadRequest, "USER_NOT_FOUND", 400),
        (Failure::UserAbsent, "USER_NOT_FOUND", 404),
        (Failure::UserAlreadyExists, "USER_ALREADY_EXISTS", 400),
        (Failure::UserDoesNotExist, "USER_DOES_NOT_EXIST", 400),
        (Failure::ResetTokenExpired, "INVALID_TOKEN", 400),
        (Failure::TokenInvalid, "INVALID_TOKEN", 400),
        (Failure::TokenUnreadable, "INVALID_TOKEN", 400),
        (Failure::TokenExpired, "EXPIRED_TOKEN", 400),
        (Failure::AlreadyVerified, "ALREADY_VERIFIED", 400),
        (Failure::EmailNotConfigured, "EMAIL_NOT_CONFIGURED", 400),
        (Failure::Internal, "INTERNAL_SERVER_ERROR", 500),
        (Failure::InternalAdmin, "INTERNAL_SERVER_ERROR", 500),
        (Failure::InternalOccurred, "INTERNAL_SERVER_ERROR", 500),
        (Failure::InternalFindingUser, "INTERNAL_SERVER_ERROR", 500),
        (Failure::InternalChangingPassword, "INTERNAL_SERVER_ERROR", 500),
    ];
    for (failure, code, status) in cases {
        let (body, got) = failure.response();
        assert_eq!(got, status);
        assert_eq!(failure.status_code(), status);
        assert_eq!(error_of(&body).0, code);
        assert!(!error_of(&body).1.is_empty());
        assert_eq!(reply_error(&failure.refuse()), (code, error_of(&body).1, status));
    }
    assert_eq!(ErrorCode::BadHeader.to_text(), "BAD_HEADER");
    assert_eq!(ErrorCode::WeakPassword.to_text(), "WEAK_PASSWORD");
    assert_eq!(ErrorCode::ExpiredJwt.to_text(), "EXPIRED_JWT");
    assert_eq!(error_of(&api_error("m".to_string(), "C".to_string())), ("C", "m"));
    let json = JsonError { message: "Error parsing JSON: x".to_string(), error_code: "JSON_ERROR".to_string() };
    assert_eq!(json.status_code(), 400);
    assert_eq!(error_of(&json.error_response()), ("JSON_ERROR", "Error parsing JSON: x"));
}
