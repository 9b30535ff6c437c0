//! The configuration that every operation is handed: nothing is read from
//! ambient state.

use crate::codec::SigningKey;
use vstd::prelude::*;

verus! {

/// The cost parameters of password hashing.
#[derive(Debug, Clone, Copy)]
pub struct Argon2Config {
    /// The length of the salt, in bytes.
    pub salt_length: u32,
    /// The memory to use, in kibibytes.
    pub memory: u32,
    /// The number of passes.
    pub iterations: u32,
    /// The number of lanes.
    pub parallelism: u32,
    /// The length of the hash, in bytes.
    pub tag_length: u32,
}

impl Argon2Config {
    /// The default parameters on a machine with `cores` processors, or with
    /// an unknown number of them: a 16-byte salt, 64 MiB, four passes, a
    /// 32-byte hash, and one lane for every two processors, rounded up.
    pub fn for_cores(cores: Option<usize>) -> (r: Argon2Config)
        ensures
            r.salt_length == 16,
            r.memory == 65536,
            r.iterations == 4,
            r.tag_length == 32,
            r.parallelism as int == match cores {
                Some(n) => if (n + 1) / 2 <= u32::MAX {
                    (n + 1) / 2
                } else {
                    u32::MAX as int
                },
                None => 1,
            },
    {
        let parallelism: u32 = match cores {
            Some(n) => {
                let half: usize = n / 2 + n % 2;
                if half > u32::MAX as usize {
                    u32::MAX
                } else {
                    half as u32
                }
            },
            None => 1,
        };
        Argon2Config { salt_length: 16, memory: 65536, iterations: 4, parallelism, tag_length: 32 }
    }
}

/// How to reach the mail server, and what the mails say.
#[derive(Debug)]
pub struct EmailConfig {
    pub smtp_server: String,
    pub smtp_port: u16,
    pub smtp_username: String,
    pub smtp_password: String,
    pub smtp_encryption: String,
    pub from: String,
    pub reply_to: String,
    pub magic_link_subject: String,
    pub forgot_password_subject: String,
    pub confirmation_subject: String,
}

/// How the connection to the mail server is secured.
#[derive(Clone, Copy, Debug, PartialEq, Eq, Structural)]
pub enum TlsMode {
    /// Not at all.
    Plain,
    /// TLS from the first byte.
    Required,
    /// STARTTLS where the server offers it.
    Opportunistic,
}

/// The configuration of the service.
pub struct Config {
    pub base_url: String,
    pub connection_url: String,
    pub secret_key: SigningKey,
    pub debug_level: String,
    pub bind_addr: String,
    pub argon2_config: Argon2Config,
    pub minimum_password_strength: u8,
    /// How to secure the connection to the mail server, where mail is
    /// configured.
    pub mailer: Option<TlsMode>,
    pub email: Option<EmailConfig>,
}

impl Config {
    /// Whether the service can send mail.
    pub open spec fn mail_configured(&self) -> bool {
        self.mailer is Some && self.email is Some
    }

    /// Tests whether the service can send mail.
    pub fn can_send_mail(&self) -> (r: bool)
        ensures
            r == self.mail_configured(),
    {
        self.mailer.is_some() && self.email.is_some()
    }
}

} // verus!
