//! The diagnostics channel.

pub mod ws;
