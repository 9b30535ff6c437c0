//! Turning the configuration file's content into the service's
//! configuration.

use crate::codec::SigningKey;
use crate::config::{Argon2Config, Config, EmailConfig, TlsMode};
use crate::ids::{random_uuid, uuid_bytes};
use crate::text::{
    chars_of, eq_ignore_ascii_case, has_prefix, lowercase_of, matches_ignoring_ascii_case,
    same_text, starts_with, to_lowercase,
};
use vstd::prelude::*;
use vstd::utf8::encode_utf8;

verus! {

/// The content of the configuration file.
pub struct ConfigInternal {
    pub base_url: String,
    pub connection_url: String,
    pub secret_key: Option<String>,
    pub bcrypt_cost: Option<u32>,
    pub debug_level: Option<String>,
    pub bind_addr: Option<String>,
    pub argon2_params: Option<Argon2Config>,
    pub email: Option<EmailConfig>,
    pub minimum_password_strength: Option<u8>,
}

/// Why a configuration was turned down.
#[derive(Clone, Copy, Debug, PartialEq, Eq, Structural)]
pub enum ConfigError {
    /// The debug level is none of `debug`, `info` and `error`.
    UnsupportedDebugLevel,
    /// The mail encryption is none of `none`, `tls` and `starttls`.
    UnsupportedTlsMethod,
    /// The database URL names no supported database.
    UnsupportedConnectionUrl,
    /// The salt is shorter than eight bytes.
    SaltTooShort,
}

/// The shortest salt that is accepted, in bytes.
pub const MIN_SALT_LENGTH: u32 = 8;

/// Whether a lower-cased URL names a supported database.
pub open spec fn names_database(lowered: Seq<char>) -> bool {
    has_prefix(lowered, "mysql:"@) || has_prefix(lowered, "postgres:"@) || has_prefix(
        lowered,
        "sqlite:"@,
    )
}

/// Tests whether a lower-cased URL names a supported database: MySQL,
/// PostgreSQL or SQLite.
pub fn has_supported_scheme(lowered: &str) -> (r: bool)
    ensures
        r == names_database(lowered@),
{
    let url = chars_of(lowered);
    let mysql = chars_of("mysql:");
    let postgres = chars_of("postgres:");
    let sqlite = chars_of("sqlite:");
    starts_with(&url, &mysql) || starts_with(&url, &postgres) || starts_with(&url, &sqlite)
}

/// Tests whether a database URL names a supported database, whatever the
/// case of its letters.
pub fn verify_connection_url(url: &str) -> (r: bool)
    ensures
        r == names_database(lowercase_of(url@)),
{
    let lowered = to_lowercase(url);
    has_supported_scheme(lowered.as_str())
}

/// Whether a debug level is supported.
pub open spec fn is_debug_level(level: Seq<char>) -> bool {
    matches_ignoring_ascii_case(level, "debug"@) || matches_ignoring_ascii_case(level, "info"@)
        || matches_ignoring_ascii_case(level, "error"@)
}

/// Tests whether a debug level is supported: `debug`, `info` or `error`, in
/// any case.
pub fn check_debug_level(level: &str) -> (r: bool)
    ensures
        r == is_debug_level(level@),
{
    let given = chars_of(level);
    let debug = chars_of("debug");
    let info = chars_of("info");
    let error = chars_of("error");
    eq_ignore_ascii_case(&given, &debug) || eq_ignore_ascii_case(&given, &info)
        || eq_ignore_ascii_case(&given, &error)
}

/// The way of securing the mail connection that a setting names.
pub open spec fn tls_mode_of(setting: Seq<char>) -> Option<TlsMode> {
    if setting == "None"@ || setting == "none"@ {
        Some(TlsMode::Plain)
    } else if setting == "TLS"@ || setting == "tls"@ {
        Some(TlsMode::Required)
    } else if setting == "STARTTLS"@ || setting == "starttls"@ {
        Some(TlsMode::Opportunistic)
    } else {
        None
    }
}

/// Reads the way of securing the mail connection.
pub fn parse_tls_mode(setting: &str) -> (r: Option<TlsMode>)
    ensures
        r == tls_mode_of(setting@),
{
    if same_text(setting, "None") || same_text(setting, "none") {
        Some(TlsMode::Plain)
    } else if same_text(setting, "TLS") || same_text(setting, "tls") {
        Some(TlsMode::Required)
    } else if same_text(setting, "STARTTLS") || same_text(setting, "starttls") {
        Some(TlsMode::Opportunistic)
    } else {
        None
    }
}

/// The first reason to turn a configuration down, if there is one. The
/// debug level is looked at first, then the mail encryption, the database
/// URL and the salt length.
pub open spec fn config_fault(json: ConfigInternal, cores: usize) -> Option<ConfigError> {
    if json.debug_level matches Some(level) && !is_debug_level(level@) {
        Some(ConfigError::UnsupportedDebugLevel)
    } else if json.email matches Some(email) && tls_mode_of(email.smtp_encryption@) is None {
        Some(ConfigError::UnsupportedTlsMethod)
    } else if !names_database(lowercase_of(json.connection_url@)) {
        Some(ConfigError::UnsupportedConnectionUrl)
    } else if (json.argon2_params matches Some(params) && params.salt_length < MIN_SALT_LENGTH) {
        Some(ConfigError::SaltTooShort)
    } else {
        None
    }
}

/// Whether `config` is what the file content `json` asks for, with
/// `fallback_key` as the signing key where the file names none, on a
/// machine with `cores` processors.
pub open spec fn built_from(
    config: Config,
    json: ConfigInternal,
    fallback_key: Seq<u8>,
    cores: usize,
) -> bool {
    &&& config.base_url@ == json.base_url@
    &&& config.connection_url@ == json.connection_url@
    &&& config.secret_key@ == match json.secret_key {
        Some(key) => encode_utf8(key@),
        None => fallback_key,
    }
    &&& config.debug_level@ == match json.debug_level {
        Some(level) => level@,
        None => "info"@,
    }
    &&& config.bind_addr@ == match json.bind_addr {
        Some(addr) => addr@,
        None => "127.0.0.1:8080"@,
    }
    &&& config.argon2_config == match json.argon2_params {
        Some(params) => params,
        None => Argon2Config {
            salt_length: 16,
            memory: 65536,
            iterations: 4,
            parallelism: ((cores as u32) / 2) as u32,
            tag_length: 32,
        },
    }
    &&& config.minimum_password_strength == match json.minimum_password_strength {
        Some(s) => s,
        None => 1,
    }
    &&& config.mailer == match json.email {
        Some(email) => tls_mode_of(email.smtp_encryption@),
        None => None,
    }
    &&& config.email == json.email
}

/// Builds the configuration from the file's content.
///
/// `fallback_key` signs the tokens where the file names no secret key;
/// `cores` is the number of processors, from which the number of hashing
/// lanes is taken where the file gives no hashing parameters.
pub fn build_config(json: ConfigInternal, fallback_key: Vec<u8>, cores: usize) -> (r: Result<
    Config,
    ConfigError,
>)
    ensures
        match r {
            Ok(config) => config_fault(json, cores) is None && built_from(
                config,
                json,
                fallback_key@,
                cores,
            ),
            Err(e) => config_fault(json, cores) == Some(e),
        },
{
    let debug_level = match &json.debug_level {
        Some(level) => {
            if !check_debug_level(level.as_str()) {
                return Err(ConfigError::UnsupportedDebugLevel);
            }
            level.clone()
        },
        None => "info".to_string(),
    };
    let mailer = match &json.email {
        Some(email) => match parse_tls_mode(email.smtp_encryption.as_str()) {
            Some(mode) => Some(mode),
            None => {
                return Err(ConfigError::UnsupportedTlsMethod);
            },
        },
        None => None,
    };
    if !verify_connection_url(json.connection_url.as_str()) {
        return Err(ConfigError::UnsupportedConnectionUrl);
    }
    let argon2_config = match json.argon2_params {
        Some(params) => params,
        None => Argon2Config {
            salt_length: 16,
            memory: 65536,
            iterations: 4,
            parallelism: (cores as u32) / 2,
            tag_length: 32,
        },
    };
    if argon2_config.salt_length < MIN_SALT_LENGTH {
        return Err(ConfigError::SaltTooShort);
    }
    let secret_key = match &json.secret_key {
        Some(key) => SigningKey { bytes: key.as_str().as_bytes_vec() },
        None => SigningKey { bytes: fallback_key },
    };
    let bind_addr = match &json.bind_addr {
        Some(addr) => addr.clone(),
        None => "127.0.0.1:8080".to_string(),
    };
    let minimum_password_strength = match json.minimum_password_strength {
        Some(s) => s,
        None => 1,
    };
    Ok(
        Config {
            base_url: json.base_url,
            connection_url: json.connection_url,
            secret_key,
            debug_level,
            bind_addr,
            argon2_config,
            minimum_password_strength,
            mailer,
            email: json.email,
        },
    )
}

/// Builds the configuration from the file's content, drawing a random
/// 16-byte signing key where the file names none.
pub fn load_config(json: ConfigInternal, cores: usize) -> (r: Result<Config, ConfigError>)
    ensures
        match r {
            Ok(config) => config_fault(json, cores) is None && exists|key: Seq<u8>|
                key.len() == 16 && #[trigger] built_from(config, json, key, cores),
            Err(e) => config_fault(json, cores) == Some(e),
        },
{
    let fallback_key = uuid_bytes(random_uuid());
    build_config(json, fallback_key, cores)
}

} // verus!
