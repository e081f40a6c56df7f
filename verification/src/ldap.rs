//! Opening a directory session as the administrator.

use crate::openldap::codes::versions::LDAP_VERSION3;
use crate::openldap::errors::LDAPError;
use crate::openldap::{is_directory_uri, BindRequest, RustLDAP};
use vstd::prelude::*;
use vstd::string::StringExecFns;

verus! {

/// What it takes to open a session as the administrator: the session, the
/// protocol version to set on it before binding, and the bind itself.
pub struct Connection {
    pub session: RustLDAP,
    pub protocol_version: i32,
    pub bind: BindRequest,
}

/// The distinguished name of the administrator `admin` under `dn`.
pub open spec fn admin_dn(admin: Seq<char>, dn: Seq<char>) -> Seq<char> {
    "cn="@ + admin + ","@ + dn
}

/// What a caller is told when the directory cannot be reached.
pub open spec fn cannot_connect() -> Seq<char> {
    "Cannot connect to LDAP server"@
}

/// Prepares the session on `uri` and the bind of the administrator `admin`
/// under `dn`. Refused exactly when `uri` does not name a directory server.
pub fn connect(uri: &str, admin: &str, password: &str, dn: &str) -> (prepared: Result<
    Connection,
    String,
>)
    ensures
        match prepared {
            Ok(connection) => {
                &&& is_directory_uri(uri@)
                &&& connection.session.uri() == uri@
                &&& connection.protocol_version == LDAP_VERSION3
                &&& connection.bind.who@ == admin_dn(admin@, dn@)
                &&& connection.bind.pass@ == password@
            },
            Err(message) => !is_directory_uri(uri@) && message@ == cannot_connect(),
        },
{
    match RustLDAP::new(uri) {
        Ok(session) => {
            let who = "cn=".to_owned().concat(admin).concat(",").concat(dn);
            let bind = session.simple_bind(who.as_str(), password);
            Ok(Connection { session, protocol_version: LDAP_VERSION3, bind })
        },
        Err(_) => Err("Cannot connect to LDAP server".to_owned()),
    }
}

/// What the reply to the administrator's bind means for the session: a
/// refused bind leaves the directory unreachable.
pub fn bound(reply: Result<i32, LDAPError>) -> (outcome: Result<(), String>)
    ensures
        outcome is Ok <==> reply is Ok,
        outcome matches Err(message) ==> message@ == cannot_connect(),
{
    match reply {
        Ok(_) => Ok(()),
        Err(_) => Err("Cannot connect to LDAP server".to_owned()),
    }
}

} // verus!
