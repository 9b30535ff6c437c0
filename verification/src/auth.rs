//! The user-facing operations: sign-up, login, token refresh and the rest of
//! the credential lifecycle.

pub mod change_password;
pub mod delete_user;
pub mod email_verify;
pub mod get_user;
pub mod login;
pub mod logout;
pub mod magic_link;
pub mod refresh;
pub mod reset_password;
pub mod signup;
pub mod update_user;
pub mod util;

pub use crate::response::{api_error, ApiResponse};
