//! Numeric codes of the directory protocol.

pub mod errors;
pub mod filters;
pub mod options;
pub mod results;
pub mod scopes;
pub mod versions;
