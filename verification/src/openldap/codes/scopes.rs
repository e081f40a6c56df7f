//! Search scopes.

use vstd::prelude::*;

verus! {

pub const LDAP_SCOPE_BASE: i32 = 0x0000;

pub const LDAP_SCOPE_BASEOBJECT: i32 = 0x0000;

pub const LDAP_SCOPE_ONELEVEL: i32 = 0x0001;

pub const LDAP_SCOPE_ONE: i32 = 0x0001;

pub const LDAP_SCOPE_SUBTREE: i32 = 0x0002;

pub const LDAP_SCOPE_SUB: i32 = 0x0002;

pub const LDAP_SCOPE_SUBORDINATE: i32 = 0x0003;

pub const LDAP_SCOPE_CHILDREN: i32 = 0x0003;

pub const LDAP_SCOPE_DEFAULT: i32 = -1;

} // verus!
