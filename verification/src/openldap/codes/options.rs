//! Option identifiers of a directory session.

use vstd::prelude::*;

verus! {

pub const LDAP_OPT_API_INFO: i32 = 0x0000;

pub const LDAP_OPT_DESC: i32 = 0x0001;

pub const LDAP_OPT_DEREF: i32 = 0x0002;

pub const LDAP_OPT_SIZELIMIT: i32 = 0x0003;

pub const LDAP_OPT_TIMELIMIT: i32 = 0x0004;

pub const LDAP_OPT_REFERRALS: i32 = 0x0008;

pub const LDAP_OPT_RESTART: i32 = 0x0009;

pub const LDAP_OPT_PROTOCOL_VERSION: i32 = 0x0011;

pub const LDAP_OPT_SERVER_CONTROLS: i32 = 0x0012;

pub const LDAP_OPT_CLIENT_CONTROLS: i32 = 0x0013;

pub const LDAP_OPT_API_FEATURE_INFO: i32 = 0x0015;

pub const LDAP_OPT_HOST_NAME: i32 = 0x0030;

pub const LDAP_OPT_RESULT_CODE: i32 = 0x0031;

pub const LDAP_OPT_ERROR_NUMBER: i32 = 0x0031;

pub const LDAP_OPT_DIAGNOSTIC_MESSAGE: i32 = 0x0032;

pub const LDAP_OPT_ERROR_STRING: i32 = 0x0032;

pub const LDAP_OPT_MATCHED_DN: i32 = 0x0033;

pub const LDAP_OPT_SSPI_FLAGS: i32 = 0x0092;

pub const LDAP_OPT_SIGN: i32 = 0x0095;

pub const LDAP_OPT_ENCRYPT: i32 = 0x0096;

pub const LDAP_OPT_SASL_METHOD: i32 = 0x0097;

pub const LDAP_OPT_SECURITY_CONTEXT: i32 = 0x0099;

pub const LDAP_OPT_API_EXTENSION_BASE: i32 = 0x4000;

pub const LDAP_OPT_X_TLS_CACERTDIR: i32 = 0x6003;

pub const LDAP_OPT_X_TLS_CACERTFILE: i32 = 0x6002;

pub const LDAP_OPT_X_TLS_CERTFILE: i32 = 0x6004;

pub const LDAP_OPT_X_TLS_KEYFILE: i32 = 0x6005;

pub const LDAP_OPT_X_TLS_NEWCTX: i32 = 0x600f;

pub const LDAP_OPT_X_TLS_REQUIRE_CERT: i32 = 0x6006;

pub const LDAP_OPT_X_TLS_NEVER: i32 = 0x0000;

pub const LDAP_OPT_X_TLS_HARD: i32 = 0x0001;

pub const LDAP_OPT_X_TLS_DEMAND: i32 = 0x0002;

pub const LDAP_OPT_X_TLS_ALLOW: i32 = 0x0003;

pub const LDAP_OPT_X_TLS_TRY: i32 = 0x0004;

} // verus!
