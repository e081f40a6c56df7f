//! Errors of the directory client.

use vstd::prelude::*;
use vstd::string::StringExecFns;

verus! {

/// An error reported by the directory client. It carries the client
/// library's own description of what went wrong.
#[derive(Debug, PartialEq)]
pub enum LDAPError {
    NativeError(String),
}

impl LDAPError {
    /// The description carried by the error.
    pub open spec fn text(&self) -> Seq<char> {
        match self {
            LDAPError::NativeError(err) => err@,
        }
    }

    /// The description of this error.
    pub fn description(&self) -> (text: String)
        ensures
            text@ == self.text(),
    {
        match self {
            LDAPError::NativeError(err) => err.clone(),
        }
    }

    /// The error as shown to an operator: the description behind
    /// `LDAP error: `.
    pub fn display(&self) -> (text: String)
        ensures
            text@ == "LDAP error: "@ + self.text(),
    {
        match self {
            LDAPError::NativeError(err) => "LDAP error: ".to_owned().concat(err.as_str()),
        }
    }

    /// The cause of this error: none is ever known.
    pub fn cause(&self) -> (cause: Option<LDAPError>)
        ensures
            cause is None,
    {
        None
    }
}

impl From<String> for LDAPError {
    fn from(err: String) -> (made: LDAPError) {
        LDAPError::NativeError(err)
    }
}

impl vstd::std_specs::convert::FromSpecImpl<String> for LDAPError {
    open spec fn obeys_from_spec() -> bool {
        true
    }

    open spec fn from_spec(err: String) -> LDAPError {
        LDAPError::NativeError(err)
    }
}

} // verus!
