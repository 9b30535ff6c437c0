//! Token issuance and verification engine of the TurboCore authentication
//! service, with the credential and session lifecycle rules around it.
//!
//! The library decides; it does no I/O. Every operation is a function of
//! what it is handed: the tables of users and of tokens, the configuration
//! with the signing key, the request, and what is drawn from outside (the
//! time, random values, the estimate of a password's strength). Each
//! operation comes in two forms: one that takes what is drawn as arguments
//! and whose contract says exactly what it does, and one that draws it
//! itself.
//!
//! - `codec`, `claims`, `token`: signing claim sets into tokens, verifying
//!   them back, and the typed claims of the service's tokens.
//! - `auth`: the bearer check and the user-facing operations, among them
//!   the issuing and the single-use redemption of refresh tokens.
//! - `admin`, `health`: administrator accounts, the guard in front of their
//!   routes, and the diagnostics channel.
//! - `entity`: the tables of users and of token records.
//! - `password`, `email_address`, `email`, `config`, `util`: what the
//!   operations rest on.
//! - `laws`: what holds of the operations together.

pub mod admin;
pub mod auth;
pub mod claims;
pub mod clock;
pub mod codec;
pub mod config;
pub mod decimal;
pub mod email;
pub mod email_address;
pub mod entity;
pub mod health;
pub mod ids;
pub mod laws;
pub mod password;
pub mod random;
pub mod response;
pub mod text;
pub mod token;
pub mod util;

pub use crate::config::{Argon2Config, Config, EmailConfig};
pub use crate::response::JsonError;
