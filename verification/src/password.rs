//! Passwords: how strong a new one must be, and how they are hashed and
//! checked.

use crate::config::Argon2Config;
use crate::random::random_salt;
use vstd::prelude::*;
use vstd::utf8::encode_utf8;

verus! {

/// The encoded Argon2id hash (version 1.3, no secret, no associated data)
/// that `rust-argon2`'s `hash_encoded` returns for a password and a salt
/// under the given costs; `None` where it returns an error.
pub uninterp spec fn argon2id_encoded(
    password: Seq<u8>,
    salt: Seq<u8>,
    memory: u32,
    iterations: u32,
    lanes: u32,
    tag_length: u32,
) -> Option<Seq<char>>;

/// What `rust-argon2`'s `verify_encoded` returns for an encoded hash and a
/// password: whether they match, or `None` where it returns an error.
pub uninterp spec fn argon2_verified(encoded: Seq<char>, password: Seq<u8>) -> Option<bool>;

/// Trusted: calls `rust-argon2`'s `hash_encoded` with an Argon2id, version
/// 1.3 configuration of the given costs, parallel lanes, no secret and no
/// associated data. The contract names the result, and claims one fact of
/// the crate that nothing here proves: a hash that was made verifies
/// against the password it was made from. The call starts one thread for
/// each lane.
#[verifier::external_body]
fn argon2_hash(
    password: &[u8],
    salt: &[u8],
    memory: u32,
    iterations: u32,
    lanes: u32,
    tag_length: u32,
) -> (r: Option<String>)
    ensures
        match r {
            Some(h) => argon2id_encoded(password@, salt@, memory, iterations, lanes, tag_length)
                == Some(h@) && argon2_verified(h@, password@) == Some(true),
            None => argon2id_encoded(password@, salt@, memory, iterations, lanes, tag_length)
                is None,
        },
{
    let config = argon2::Config {
        variant: argon2::Variant::Argon2id,
        version: argon2::Version::Version13,
        mem_cost: memory,
        time_cost: iterations,
        lanes,
        thread_mode: argon2::ThreadMode::Parallel,
        secret: &[],
        ad: &[],
        hash_length: tag_length,
    };
    argon2::hash_encoded(password, salt, &config).ok()
}

/// Trusted: calls `rust-argon2`'s `verify_encoded`. The contract only names
/// the result.
#[verifier::external_body]
fn argon2_verify(encoded: &str, password: &[u8]) -> (r: Option<bool>)
    ensures
        r == argon2_verified(encoded@, password@),
{
    argon2::verify_encoded(encoded, password).ok()
}

/// What `zxcvbn` makes of a password.
#[derive(Debug)]
pub struct Strength {
    /// From 0, trivially guessed, to 4, very hard to guess.
    pub score: u8,
    /// What is wrong with the password, where the estimate says so.
    pub warning: Option<String>,
}

/// Trusted: calls `zxcvbn`'s `zxcvbn` with no user inputs, and hands back
/// the score and the warning of its feedback. The call reads the clock, so
/// the result gets no name and no promise of success; the contract says what
/// holds of every outcome: an empty password gets none, a score is at most 4.
#[verifier::external_body]
fn estimate_strength(password: &str) -> (r: Option<Strength>)
    ensures
        password@.len() == 0 ==> r is None,
        r matches Some(s) ==> s.score <= 4,
{
    let estimate = zxcvbn::zxcvbn(password, &[]).ok()?;
    let warning = match estimate.feedback() {
        Some(feedback) => feedback.warning().map(|w| format!("{}", w)),
        None => None,
    };
    Some(Strength { score: estimate.score(), warning })
}

/// Estimates the strength of a password. An empty password gets no
/// estimate; whether another gets one is for the estimator, which gives none
/// while the clock stands before 1970. A score is at most 4.
pub fn estimate(password: &str) -> (r: Option<Strength>)
    ensures
        password@.len() == 0 ==> r is None,
        r matches Some(s) ==> s.score <= 4,
{
    estimate_strength(password)
}

/// Why a new password was turned down.
#[derive(Debug)]
pub enum PasswordFault {
    /// No estimate could be made of it: it is empty.
    Unusable,
    /// It scores below the minimum; with what the estimate says is wrong
    /// with it.
    Weak(Option<String>),
}

/// What the estimate of a password's strength means under a minimum score:
/// `None` where the password is accepted.
pub open spec fn strength_fault(estimate: Option<Strength>, minimum: u8) -> Option<PasswordFault> {
    match estimate {
        None => Some(PasswordFault::Unusable),
        Some(s) => if s.score < minimum {
            Some(PasswordFault::Weak(s.warning))
        } else {
            None
        },
    }
}

/// The message that tells a client that its new password is too weak: the
/// warning follows the fixed sentence, after a space.
pub open spec fn weak_message(warning: Option<String>) -> Seq<char> {
    match warning {
        Some(w) => "The password provided is too weak. "@ + w@,
        None => "The password provided is too weak."@,
    }
}

/// Judges the estimate of a new password's strength under a minimum score.
pub fn judge_strength(estimate: Option<Strength>, minimum: u8) -> (r: Option<PasswordFault>)
    ensures
        r == strength_fault(estimate, minimum),
{
    match estimate {
        None => Some(PasswordFault::Unusable),
        Some(s) => if s.score < minimum {
            Some(PasswordFault::Weak(s.warning))
        } else {
            None
        },
    }
}

/// Writes the message that tells a client that its new password is too
/// weak.
pub fn write_weak_message(warning: &Option<String>) -> (r: String)
    ensures
        r@ == weak_message(*warning),
{
    match warning {
        Some(w) => {
            let mut message = "The password provided is too weak. ".to_string();
            message.append(w.as_str());
            message
        },
        None => "The password provided is too weak.".to_string(),
    }
}

/// Why a password could not be hashed or checked.
#[derive(Clone, Copy, Debug, PartialEq, Eq, Structural)]
pub enum HashError {
    /// The hashing parameters, the salt or the stored hash are not usable.
    Failed,
}

/// The hash of a password with a given salt, under the configured costs:
/// the one that the hashing scheme gives, which the password matches.
/// `None` where there is no such hash.
pub open spec fn hashed(password: Seq<char>, salt: Seq<u8>, config: Argon2Config) -> Option<
    Seq<char>,
> {
    match argon2id_encoded(
        encode_utf8(password),
        salt,
        config.memory,
        config.iterations,
        config.parallelism,
        config.tag_length,
    ) {
        Some(hash) => if password_matches(hash, password) == Some(true) {
            Some(hash)
        } else {
            None
        },
        None => None,
    }
}

/// Whether a password matches a stored hash; `None` where the stored hash
/// is not usable.
pub open spec fn password_matches(stored: Seq<char>, password: Seq<char>) -> Option<bool> {
    argon2_verified(stored, encode_utf8(password))
}

/// Hashes a password with a given salt.
///
/// A hash that is returned matches the password.
pub fn hash_with_salt(password: &str, salt: &Vec<u8>, config: &Argon2Config) -> (r: Result<
    String,
    HashError,
>)
    ensures
        match r {
            Ok(h) => hashed(password@, salt@, *config) == Some(h@),
            Err(_) => hashed(password@, salt@, *config) is None,
        },
{
    match argon2_hash(
        password.as_bytes(),
        salt.as_slice(),
        config.memory,
        config.iterations,
        config.parallelism,
        config.tag_length,
    ) {
        Some(h) => Ok(h),
        None => Err(HashError::Failed),
    }
}

/// Hashes a password with a fresh random salt of the configured length.
///
/// The result is that of `hash_with_salt` for some salt of that length.
pub fn hash_password(password: &str, config: &Argon2Config) -> (r: Result<String, HashError>)
    ensures
        exists|salt: Seq<u8>|
            salt.len() == config.salt_length && match r {
                Ok(h) => #[trigger] hashed(password@, salt, *config) == Some(h@),
                Err(_) => hashed(password@, salt, *config) is None,
            },
{
    let salt = random_salt(config.salt_length);
    let r = hash_with_salt(password, &salt, config);
    assert(salt@.len() == config.salt_length && match r {
        Ok(h) => hashed(password@, salt@, *config) == Some(h@),
        Err(_) => hashed(password@, salt@, *config) is None,
    });
    r
}

/// Checks a password against a stored hash.
pub fn verify_password(stored: &str, password: &str) -> (r: Result<bool, HashError>)
    ensures
        match r {
            Ok(b) => password_matches(stored@, password@) == Some(b),
            Err(_) => password_matches(stored@, password@) is None,
        },
{
    match argon2_verify(stored, password.as_bytes()) {
        Some(b) => Ok(b),
        None => Err(HashError::Failed),
    }
}

} // verus!
