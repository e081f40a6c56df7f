//! Result codes that a directory server returns.

use vstd::prelude::*;

verus! {

pub const LDAP_SUCCESS: i32 = 0x00;

pub const LDAP_OPERATIONS_ERROR: i32 = 0x01;

pub const LDAP_PROTOCOL_ERROR: i32 = 0x02;

pub const LDAP_TIMELIMIT_EXCEEDED: i32 = 0x03;

pub const LDAP_SIZELIMIT_EXCEEDED: i32 = 0x04;

pub const LDAP_COMPARE_FALSE: i32 = 0x05;

pub const LDAP_COMPARE_TRUE: i32 = 0x06;

pub const LDAP_AUTH_METHOD_NOT_SUPPORTED: i32 = 0x07;

pub const LDAP_STRONG_AUTH_NOT_SUPPORTED: i32 = 0x07;

pub const LDAP_STRONG_AUTH_REQUIRED: i32 = 0x08;

pub const LDAP_STRONGER_AUTH_REQUIRED: i32 = 0x08;

pub const LDAP_PARTIAL_RESULTS: i32 = 0x09;

pub const LDAP_REFERRAL: i32 = 0x0a;

pub const LDAP_ADMINLIMIT_EXCEEDED: i32 = 0x0b;

pub const LDAP_UNAVAILABLE_CRITICAL_EXTENSION: i32 = 0x0c;

pub const LDAP_CONFIDENTIALITY_REQUIRED: i32 = 0x0d;

pub const LDAP_SASL_BIND_IN_PROGRESS: i32 = 0x0e;

pub const LDAP_NO_SUCH_ATTRIBUTE: i32 = 0x10;

pub const LDAP_UNDEFINED_TYPE: i32 = 0x11;

pub const LDAP_INAPPROPRIATE_MATCHING: i32 = 0x12;

pub const LDAP_CONSTRAINT_VIOLATION: i32 = 0x13;

pub const LDAP_TYPE_OR_VALUE_EXISTS: i32 = 0x14;

pub const LDAP_INVALID_SYNTAX: i32 = 0x15;

pub const LDAP_NO_SUCH_OBJECT: i32 = 0x20;

pub const LDAP_ALIAS_PROBLEM: i32 = 0x21;

pub const LDAP_INVALID_DN_SYNTAX: i32 = 0x22;

pub const LDAP_IS_LEAF: i32 = 0x23;

pub const LDAP_ALIAS_DEREF_PROBLEM: i32 = 0x24;

pub const LDAP_X_PROXY_AUTHZ_FAILURE: i32 = 0x2f;

pub const LDAP_INAPPROPRIATE_AUTH: i32 = 0x30;

pub const LDAP_INVALID_CREDENTIALS: i32 = 0x31;

pub const LDAP_INSUFFICIENT_ACCESS: i32 = 0x32;

pub const LDAP_BUSY: i32 = 0x33;

pub const LDAP_UNAVAILABLE: i32 = 0x34;

pub const LDAP_UNWILLING_TO_PERFORM: i32 = 0x35;

pub const LDAP_LOOP_DETECT: i32 = 0x36;

pub const LDAP_NAMING_VIOLATION: i32 = 0x40;

pub const LDAP_OBJECT_CLASS_VIOLATION: i32 = 0x41;

pub const LDAP_NOT_ALLOWED_ON_NONLEAF: i32 = 0x42;

pub const LDAP_NOT_ALLOWED_ON_RDN: i32 = 0x43;

pub const LDAP_ALREADY_EXISTS: i32 = 0x44;

pub const LDAP_NO_OBJECT_CLASS_MODS: i32 = 0x45;

pub const LDAP_RESULTS_TOO_LARGE: i32 = 0x46;

pub const LDAP_AFFECTS_MULTIPLE_DSAS: i32 = 0x47;

pub const LDAP_VLV_ERROR: i32 = 0x4c;

pub const LDAP_OTHER: i32 = 0x50;

} // verus!
