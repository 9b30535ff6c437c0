//! The records that the service keeps, and the tables that hold them.

pub mod refresh_tokens;
pub mod users;
