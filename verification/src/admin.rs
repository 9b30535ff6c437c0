//! Administrator accounts, and the guard in front of the administration
//! routes.

pub mod create_admin;
pub mod login;
pub mod middleware;
