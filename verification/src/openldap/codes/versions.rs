//! Protocol versions.

use vstd::prelude::*;

verus! {

pub const LDAP_VERSION1: i32 = 1;

pub const LDAP_VERSION2: i32 = 2;

pub const LDAP_VERSION3: i32 = 3;

} // verus!
