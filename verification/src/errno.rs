//! Error numbers of the API, after the HTTP status codes, and their
//! descriptions.

use vstd::prelude::*;

verus! {

pub const BAD_REQQUEST: i32 = 400;

pub const UNAUTHORIZED: i32 = 401;

pub const NOT_FOUND: i32 = 404;

pub const INVALID_TOKEN: i32 = 498;

pub const INTERNAL_SERVER_ERROR: i32 = 500;

pub const BAD_REQUEST_STR: &'static str = "Bad request";

pub const UNAUTHORIZED_STR: &'static str = "Access denied";

pub const NOT_FOUND_STR: &'static str = "Not found";

pub const INVALID_TOKEN_STR: &'static str = "Invalid token";

} // verus!
