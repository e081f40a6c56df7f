//! Tags of search filter components.

use vstd::prelude::*;

verus! {

pub const LDAP_FILTER_AND: u32 = 0xa0;

pub const LDAP_FILTER_OR: u32 = 0xa1;

pub const LDAP_FILTER_NOT: u32 = 0xa2;

pub const LDAP_FILTER_EQUALITY: u32 = 0xa3;

pub const LDAP_FILTER_SUBSTRINGS: u32 = 0xa4;

pub const LDAP_FILTER_GE: u32 = 0xa5;

pub const LDAP_FILTER_LE: u32 = 0xa6;

pub const LDAP_FILTER_PRESENT: u32 = 0x87;

pub const LDAP_FILTER_APPROX: u32 = 0xa8;

pub const LDAP_FILTER_EXT: u32 = 0xa9;

pub const LDAP_FILTER_EXT_OID: u32 = 0x81;

pub const LDAP_FILTER_EXT_TYPE: u32 = 0x82;

pub const LDAP_FILTER_EXT_VALUE: u32 = 0x83;

pub const LDAP_FILTER_EXT_DNATTRS: u32 = 0x84;

pub const LDAP_SUBSTRING_INITIAL: u32 = 0x80;

pub const LDAP_SUBSTRING_ANY: u32 = 0x81;

pub const LDAP_SUBSTRING_FINAL: u32 = 0x82;

} // verus!
