//! Process-wide, read-only configuration.
//!
//! The configuration is built once at startup (from the environment, by the
//! embedding program) and then only read: credential issuance and identity
//! resolution take it by shared reference and never mutate it.

use vstd::prelude::*;

verus! {

/// Number of days a freshly issued credential stays valid.
pub const LOGIN_EXPIRE_DAYS: i64 = 60;

/// The validity window of a freshly issued credential, in seconds:
/// `LOGIN_EXPIRE_DAYS` days of 86400 seconds each.
pub const LOGIN_EXPIRE_SECONDS: i64 = 60 * 86400;

/// Read-only server configuration, loaded once at process start.
pub struct Config {
    pub server_name: String,
    pub web_url: String,
    pub database_url: String,
    /// Symmetric signing secret for bearer credentials.
    pub secret_key: String,
    /// When `true`, requests without a valid credential are still served
    /// under an anonymous identity instead of being rejected.
    pub public_board: bool,
}

} // verus!
