//! Single-sign-on core: a user is authenticated against a directory, the
//! stored salted-hash credential is checked, and an opaque session token is
//! issued that other sites can present in place of credentials.
//!
//! - [`password`] checks a password against a `{SSHA}` credential.
//! - [`token`] and [`token_store`] issue tokens and keep their records; the
//!   records live in a [`store`] of string keys and values.
//! - [`continue_url`] decides whether a login may redirect to its
//!   continuation.
//! - [`login_handler`] runs a login through its states, from the reply of
//!   the directory to the response; [`api_handler`] answers token lookups.
//! - [`openldap`] and [`ldap`] hold what is decided about the directory
//!   without talking to it.
//! - [`config`], [`context`], [`api_result`], [`errno`] and [`utils`] carry
//!   the configuration, the payloads and small helpers.
//! - [`outside`] is the one place where functions of other crates are
//!   called.

pub mod api_handler;
pub mod api_result;
pub mod config;
pub mod context;
pub mod continue_url;
pub mod errno;
pub mod ldap;
pub mod login_handler;
pub mod openldap;
pub mod outside;
pub mod password;
pub mod store;
pub mod token;
pub mod token_store;
pub mod utils;
