//! Error codes raised by the client library itself.

use vstd::prelude::*;

verus! {

pub const LDAP_SERVER_DOWN: i32 = -1;

pub const LDAP_LOCAL_ERROR: i32 = -2;

pub const LDAP_ENCODING_ERROR: i32 = -3;

pub const LDAP_DECODING_ERROR: i32 = -4;

pub const LDAP_TIMEOUT: i32 = -5;

pub const LDAP_AUTH_UNKNOWN: i32 = -6;

pub const LDAP_FILTER_ERROR: i32 = -7;

pub const LDAP_USER_CANCELLED: i32 = -8;

pub const LDAP_PARAM_ERROR: i32 = -9;

pub const LDAP_NO_MEMORY: i32 = -10;

pub const LDAP_CONNECT_ERROR: i32 = -11;

pub const LDAP_NOT_SUPPORTED: i32 = -12;

pub const LDAP_CONTROL_NOT_FOUND: i32 = -13;

pub const LDAP_NO_RESULTS_RETURNED: i32 = -14;

pub const LDAP_MORE_RESULTS_TO_RETURN: i32 = -15;

pub const LDAP_CLIENT_LOOP: i32 = -16;

pub const LDAP_REFERRAL_LIMIT_EXCEEDED: i32 = -17;

pub const LDAP_X_CONNECTING: i32 = -18;

} // verus!
