use regex::Regex;
use turbocore::config::{Argon2Config, EmailConfig, TlsMode};
use turbocore::decimal::{format_i64, parse_i64};
use turbocore::email::compose;
use turbocore::email_address::is_valid_email;
use turbocore::random::{random_salt, random_text};
use turbocore::text::{
    char_is_whitespace, contains_char, eq_ignore_ascii_case, join, same_text, split_whitespace,
    starts_with,
};
use turbocore::util::load_config::{
    build_config, check_debug_level, has_supported_scheme, load_config, parse_tls_mode,
    verify_connection_url, ConfigError, ConfigInternal, MIN_SALT_LENGTH,
};

fn chars(s: &str) -> Vec<char> {
    s.chars().collect()
}

#[test]
fn numbers_are_read_as_the_standard_library_reads_them() {
    let texts = [
        "", "+", "-", "0", "-0", "+0", "007", "+5", "-5", "12a", "a12", " 1", "1 ", "1_000", "--5", "+-5",
        "9223372036854775807", "9223372036854775808", "+9223372036854775807",
        "-9223372036854775808", "-9223372036854775809", "00000000000000000000000000009223372036854775807",
        "99999999999999999999999999", "-99999999999999999999999999", "18446744073709551616",
        "1700000915", "\u{661}\u{662}", "1.5", "0x10",
    ];
    for text in texts {
        assert_eq!(parse_i64(&chars(text)), text.parse::<i64>().ok(), "{:?}", text);
    }
    assert_eq!(parse_i64(&chars("1700000915")), Some(1_700_000_915));
    assert_eq!(parse_i64(&chars("-42")), Some(-42));
}

#[test]
fn numbers_are_written_as_the_standard_library_writes_them() {
    for n in [0, 1, -1, 9, 10, -10, 99, 100, 1_700_000_915, i64::MAX, i64::MIN, i64::MIN + 1, -9, 1234567890123] {
        let written: String = format_i64(n).into_iter().collect();
        assert_eq!(written, n.to_string());
        assert_eq!(parse_i64(&format_i64(n)), Some(n));
    }
    assert_eq!(format_i64(-305), chars("-305"));
}

#[test]
fn texts_are_split_as_the_standard_library_splits_them() {
    let texts = [
        "", " ", "a", " a", "a ", "a b", "  Bearer \t token  ", "auth key extra", "a\u{a0}b", "a\u{3000}b\u{2003}c",
        "a\nb\r\nc", "a\u{85}b", "a\u{200b}b", "\u{1680}", "tab\tseparated", "\u{feff}x",
    ];
    for text in texts {
        let expected: Vec<String> = text.split_whitespace().map(|w| w.to_string()).collect();
        assert_eq!(split_whitespace(&chars(text)), expected, "{:?}", text);
    }
    assert_eq!(split_whitespace(&chars("  Bearer \t token  ")), vec!["Bearer".to_string(), "token".to_string()]);
    for code in 0u32..0x3100 {
        if let Some(c) = char::from_u32(code) {
            assert_eq!(char_is_whitespace(c), c.is_whitespace(), "U+{:04X}", code);
        }
    }
}

#[test]
fn texts_are_compared_and_joined() {
    assert!(same_text("abc", "abc"));
    assert!(!same_text("abc", "abd"));
    assert!(!same_text("abc", "ab"));
    assert!(starts_with(&chars("sqlite:memory"), &chars("sqlite:")));
    assert!(starts_with(&chars("sqlite:"), &chars("sqlite:")));
    assert!(starts_with(&chars("x"), &chars("")));
    assert!(!starts_with(&chars("sqlite"), &chars("sqlite:")));
    assert!(!starts_with(&chars("mysqlite:"), &chars("sqlite:")));
    for (a, b) in [("DEBUG", "debug"), ("Info", "iNFO"), ("", ""), ("a", "b"), ("ab", "a"), ("[", "{"), ("@", "`"), ("\u{c9}", "\u{e9}"), ("K", "\u{212a}")] {
        assert_eq!(eq_ignore_ascii_case(&chars(a), &chars(b)), a.eq_ignore_ascii_case(b), "{:?} {:?}", a, b);
    }
    assert!(contains_char("a?b", '?'));
    assert!(!contains_char("ab", '?'));
    assert!(!contains_char("", '?'));
    assert_eq!(join("ab", "cd"), "abcd");
    assert_eq!(join("", ""), "");
}

#[test]
fn addresses_are_judged_as_the_pattern_judges_them() {
    let pattern = Regex::new(r"^[a-zA-Z0-9.!#$%&'*+/=?^_`{|}~-]+@[a-zA-Z0-9](?:[a-zA-Z0-9-]{0,61}[a-zA-Z0-9])?(?:\.[a-zA-Z0-9](?:[a-zA-Z0-9-]{0,61}[a-zA-Z0-9])?)*$").unwrap();
    let label63 = "a".repeat(63);
    let label64 = "a".repeat(64);
    let mut cases: Vec<String> = [
        "test@example.com", "test@example.", "test@example", "@example.com", "test@", "test", "", "@", "a@b",
        "a@b.c", "a@b..c", "a@.b", "a@b.", "a@-b.c", "a@b-.c", "a@b-c.d", "a@b--c.d", "a@b.c-", "a@b.-c",
        "a b@c.d", "a@b c.d", "a@@b.c", "a@b@c.d", "a.b.c@d.e", ".a@b.c", "a.@b.c", "a..b@c.d",
        "!#$%&'*+/=?^_`{|}~-@x.y", "a(b)@c.d", "a\"b@c.d", "a,b@c.d", "a@b_c.d", "a@b.c\n", "\na@b.c",
        "a@b.c ", " a@b.c", "A@B.C", "1@2.3", "a@1", "\u{e9}@b.c", "a@\u{e9}.c", "a@b.\u{e9}", "a-@b.c",
        "a@b.c.d.e.f", "a@b/c", "a/b@c", "exists@example.com", "login@example.com", "a@example.com",
    ]
    .iter()
    .map(|s| s.to_string())
    .collect();
    cases.push(format!("a@{}.com", label63));
    cases.push(format!("a@{}.com", label64));
    cases.push(format!("a@b.{}", label63));
    cases.push(format!("a@b.{}", label64));
    cases.push(format!("a@{}", label64));
    cases.push(format!("{}@b.c", label64));
    cases.push(format!("a@{}-{}.c", "a".repeat(31), "b".repeat(31)));
    cases.push(format!("a@{}-{}.c", "a".repeat(31), "b".repeat(32)));
    for case in &cases {
        assert_eq!(is_valid_email(case), pattern.is_match(case), "{:?}", case);
    }
    assert!(is_valid_email("test@example.com"));
    assert!(!is_valid_email("test@example."));
}

#[test]
fn random_texts_have_the_length_asked_for() {
    for len in [0usize, 1, 5, 64] {
        let text = random_text(len);
        assert_eq!(text.chars().count(), len);
        assert!(text.chars().all(|c| c.is_ascii_alphanumeric()));
    }
    assert_ne!(random_text(32), random_text(32));
    for len in [0u32, 8, 16, 300] {
        let salt = random_salt(len);
        assert_eq!(salt.len(), len as usize);
        assert!(salt.iter().all(|b| *b < 255));
    }
    assert_ne!(random_salt(32), random_salt(32));
}

#[test]
fn the_connection_url_names_a_supported_database() {
    assert!(verify_connection_url("sqlite::memory:"));
    assert!(verify_connection_url("SQLITE://file.db"));
    assert!(verify_connection_url("Postgres://user@host/db"));
    assert!(verify_connection_url("mysql://host"));
    assert!(!verify_connection_url("mongodb://host"));
    assert!(!verify_connection_url("sqlite"));
    assert!(!verify_connection_url(" sqlite:"));
    assert!(!verify_connection_url(""));
    assert!(has_supported_scheme("postgres:"));
    assert!(!has_supported_scheme("POSTGRES:"));
    assert!(!has_supported_scheme("postgresql"));
}

#[test]
fn levels_and_modes_are_read() {
    for level in ["debug", "DEBUG", "info", "Info", "error", "eRRor"] {
        assert!(check_debug_level(level));
    }
    for level in ["", "warn", "trace", "debug ", "inf", "errors"] {
        assert!(!check_debug_level(level));
    }
    assert_eq!(parse_tls_mode("None"), Some(TlsMode::Plain));
    assert_eq!(parse_tls_mode("none"), Some(TlsMode::Plain));
    assert_eq!(parse_tls_mode("TLS"), Some(TlsMode::Required));
    assert_eq!(parse_tls_mode("tls"), Some(TlsMode::Required));
    assert_eq!(parse_tls_mode("STARTTLS"), Some(TlsMode::Opportunistic));
    assert_eq!(parse_tls_mode("starttls"), Some(TlsMode::Opportunistic));
    assert_eq!(parse_tls_mode("Tls"), None);
    assert_eq!(parse_tls_mode("NONE"), None);
    assert_eq!(parse_tls_mode(""), None);
}

fn mail(encryption: &str) -> EmailConfig {
    EmailConfig {
        smtp_server: "smtp.example.com".to_string(),
        smtp_port: 465,
        smtp_username: "user".to_string(),
        smtp_password: "SECRET-REDACTED".to_string(),
        smtp_encryption: encryption.to_string(),
        from: "from@example.com".to_string(),
        reply_to: "reply@example.com".to_string(),
        magic_link_subject: "m".to_string(),
        forgot_password_subject: "f".to_string(),
        confirmation_subject: "c".to_string(),
    }
}

fn file(connection_url: &str) -> ConfigInternal {
    ConfigInternal {
        base_url: "http://turbocore".to_string(),
        connection_url: connection_url.to_string(),
        secret_key: None,
        bcrypt_cost: None,
        debug_level: None,
        bind_addr: None,
        argon2_params: None,
        email: None,
        minimum_password_strength: None,
    }
}

#[test]
fn a_bare_configuration_gets_the_defaults() {
    let config = build_config(file("sqlite::memory:"), vec![1, 2, 3], 8).ok().unwrap();
    assert_eq!(config.base_url, "http://turbocore");
    assert_eq!(config.connection_url, "sqlite::memory:");
    assert_eq!(config.secret_key.bytes, vec![1, 2, 3]);
    assert_eq!(config.debug_level, "info");
    assert_eq!(config.bind_addr, "127.0.0.1:8080");
    assert_eq!(config.minimum_password_strength, 1);
    let argon = config.argon2_config;
    assert_eq!(
        (argon.salt_length, argon.memory, argon.iterations, argon.parallelism, argon.tag_length),
        (16, 65536, 4, 4, 32)
    );
    assert!(config.mailer.is_none() && config.email.is_none());
    assert!(!config.can_send_mail());

    let odd = build_config(file("sqlite::memory:"), vec![], 7).ok().unwrap();
    assert_eq!(odd.argon2_config.parallelism, 3);

    let drawn = load_config(file("sqlite::memory:"), 2).ok().unwrap();
    assert_eq!(drawn.secret_key.bytes.len(), 16);
    let again = load_config(file("sqlite::memory:"), 2).ok().unwrap();
    assert_ne!(drawn.secret_key.bytes, again.secret_key.bytes);
}

#[test]
fn a_full_configuration_is_taken_over() {
    let mut json = file("Postgres://db");
    json.secret_key = Some("a_secret_key".to_string());
    json.debug_level = Some("DEBUG".to_string());
    json.bind_addr = Some("0.0.0.0:80".to_string());
    json.argon2_params = Some(Argon2Config { salt_length: 8, memory: 1024, iterations: 2, parallelism: 1, tag_length: 16 });
    json.email = Some(mail("tls"));
    json.minimum_password_strength = Some(3);
    let config = load_config(json, 64).ok().unwrap();
    assert_eq!(config.secret_key.bytes, b"a_secret_key".to_vec());
    assert_eq!(config.debug_level, "DEBUG");
    assert_eq!(config.bind_addr, "0.0.0.0:80");
    assert_eq!(config.argon2_config.salt_length, 8);
    assert_eq!(config.argon2_config.memory, 1024);
    assert_eq!(config.minimum_password_strength, 3);
    assert_eq!(config.mailer, Some(TlsMode::Required));
    assert_eq!(config.email.as_ref().unwrap().smtp_port, 465);
    assert!(config.can_send_mail());
}

#[test]
fn a_faulty_configuration_is_turned_down() {
    assert_eq!(MIN_SALT_LENGTH, 8);
    let fault = |json: ConfigInternal| build_config(json, vec![0; 16], 4).err();

    let mut json = file("mongodb://db");
    json.debug_level = Some("verbose".to_string());
    json.email = Some(mail("ssl"));
    json.argon2_params = Some(Argon2Config { salt_length: 7, memory: 1024, iterations: 2, parallelism: 1, tag_length: 16 });
    assert_eq!(fault(json), Some(ConfigError::UnsupportedDebugLevel));

    let mut json = file("mongodb://db");
    json.email = Some(mail("ssl"));
    json.argon2_params = Some(Argon2Config { salt_length: 7, memory: 1024, iterations: 2, parallelism: 1, tag_length: 16 });
    assert_eq!(fault(json), Some(ConfigError::UnsupportedTlsMethod));

    let mut json = file("mongodb://db");
    json.argon2_params = Some(Argon2Config { salt_length: 7, memory: 1024, iterations: 2, parallelism: 1, tag_length: 16 });
    assert_eq!(fault(json), Some(ConfigError::UnsupportedConnectionUrl));

    let mut json = file("mysql://db");
    json.argon2_params = Some(Argon2Config { salt_length: 7, memory: 1024, iterations: 2, parallelism: 1, tag_length: 16 });
    assert_eq!(fault(json), Some(ConfigError::SaltTooShort));
    assert_eq!(load_config(file(""), 4).err(), Some(ConfigError::UnsupportedConnectionUrl));
}

#[test]
fn the_default_costs_follow_the_number_of_processors() {
    for (cores, lanes) in [(None, 1u32), (Some(0usize), 0), (Some(1), 1), (Some(2), 1), (Some(3), 2), (Some(8), 4), (Some(9), 5)] {
        let config = Argon2Config::for_cores(cores);
        assert_eq!(config.parallelism, lanes);
        assert_eq!((config.salt_length, config.memory, config.iterations, config.tag_length), (16, 65536, 4, 32));
    }
}

#[test]
fn a_mail_names_what_is_known_of_the_client() {
    let settings = mail("none");
    let sent = compose(&settings, "name", "to@example.com", "https://link".to_string(), "subject", &None);
    assert_eq!(sent.name, "name");
    assert_eq!(sent.to, "to@example.com");
    assert_eq!(sent.action_url, "https://link");
    assert_eq!(sent.subject, "subject");
    assert_eq!(sent.from, "from@example.com");
    assert_eq!(sent.reply_to, "reply@example.com");
    assert_eq!((sent.os.as_str(), sent.device.as_str()), ("Unknown", "Unknown"));
}

#[test]
fn the_bytes_of_an_id_are_those_of_its_uuid() {
    for value in [0u128, 1, 255, 256, 0x0102030405060708090a0b0c0d0e0f10, u128::MAX, 0x6755d7b138f24a3ab87298d0e7bbd1ee] {
        assert_eq!(
            turbocore::ids::uuid_bytes(value),
            uuid::Uuid::from_u128(value).as_bytes().to_vec()
        );
    }
    assert_eq!(
        turbocore::ids::uuid_bytes(0x0102030405060708090a0b0c0d0e0f10),
        vec![1, 2, 3, 4, 5, 6, 7, 8, 9, 10, 11, 12, 13, 14, 15, 16]
    );
}
