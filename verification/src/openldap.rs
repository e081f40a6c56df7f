//! The directory client as the login flow sees it.
//!
//! Talking to a directory server is left to the caller. This module holds
//! what can be decided without the network: which URIs name a directory
//! server, what a bind or a search asks for, how a reply code turns into a
//! result, and how attributes are read from an entry.

pub mod codes;
pub mod errors;

use crate::openldap::codes::results::LDAP_SUCCESS;
use crate::openldap::errors::LDAPError;
use vstd::prelude::*;
use vstd::string::StrSliceExecFns;

verus! {

/// One attribute of a directory entry: its name and its values, in the order
/// the directory returned them.
pub struct Attribute {
    pub name: String,
    pub values: Vec<String>,
}

/// A directory entry: its attributes in the order the directory returned
/// them. Nothing is merged or dropped; where a name occurs more than once,
/// the last occurrence is the one that is read.
pub struct DirectoryEntry {
    pub attributes: Vec<Attribute>,
}

/// The entries matched by a search.
pub type LDAPResponse = Vec<DirectoryEntry>;

/// What a bind asks for.
pub struct BindRequest {
    pub who: String,
    pub pass: String,
}

/// What a search asks for.
pub struct SearchRequest {
    pub base: String,
    pub scope: i32,
    pub filter: Option<String>,
    pub attrs: Option<Vec<String>>,
    pub attrsonly: bool,
    pub sizelimit: i32,
}

/// A session with a directory server, before anything is sent: the URI it
/// will be opened on.
pub struct RustLDAP {
    uri: String,
}

/// Whether `text` begins with `lower`, where each character may also be the
/// one at the same place in `upper`.
pub open spec fn has_prefix_either_case(text: Seq<char>, lower: Seq<char>, upper: Seq<char>)
    -> bool {
    &&& text.len() >= lower.len()
    &&& forall|i: int|
        0 <= i < lower.len() ==> #[trigger] text[i] == lower[i] || text[i] == upper[i]
}

/// Whether `uri` names a directory server: it begins, in either case, with
/// one of the schemes `ldap://`, `ldaps://`, `ldapi://`, `cldap://`.
pub open spec fn is_directory_uri(uri: Seq<char>) -> bool {
    ||| has_prefix_either_case(uri, "ldap://"@, "LDAP://"@)
    ||| has_prefix_either_case(uri, "ldaps://"@, "LDAPS://"@)
    ||| has_prefix_either_case(uri, "ldapi://"@, "LDAPI://"@)
    ||| has_prefix_either_case(uri, "cldap://"@, "CLDAP://"@)
}

/// The description of a refused parameter.
pub open spec fn bad_parameter() -> Seq<char> {
    "Bad parameter to an ldap routine"@
}

/// The description by which a directory reports that the search base does
/// not exist.
pub open spec fn no_such_object() -> Seq<char> {
    "No such object"@
}

/// The values of the last attribute of `attributes` that is named `name`.
pub open spec fn values_of(attributes: Seq<Attribute>, name: Seq<char>) -> Option<Seq<String>>
    decreases attributes.len(),
{
    if attributes.len() == 0 {
        None
    } else if attributes.last().name@ == name {
        Some(attributes.last().values@)
    } else {
        values_of(attributes.drop_last(), name)
    }
}

/// The first value of the attribute `name`, or the empty text where the
/// attribute is absent or has no value.
pub open spec fn first_value_of(attributes: Seq<Attribute>, name: Seq<char>) -> Seq<char> {
    match values_of(attributes, name) {
        Some(values) => if values.len() > 0 {
            values[0]@
        } else {
            Seq::<char>::empty()
        },
        None => Seq::<char>::empty(),
    }
}

/// Whether `text` begins with `lower`, where each character may also be the
/// one at the same place in `upper`.
fn begins_either_case(text: &str, lower: &str, upper: &str) -> (begins: bool)
    requires
        lower@.len() == upper@.len(),
    ensures
        begins == has_prefix_either_case(text@, lower@, upper@),
{
    let needed = lower.unicode_len();
    if text.unicode_len() < needed {
        return false;
    }
    let mut i: usize = 0;
    while i < needed
        invariant
            i <= needed,
            needed == lower@.len(),
            lower@.len() == upper@.len(),
            text@.len() >= needed,
            forall|j: int| 0 <= j < i ==> #[trigger] text@[j] == lower@[j] || text@[j] == upper@[j],
        decreases needed - i,
    {
        let c = text.get_char(i);
        if c != lower.get_char(i) && c != upper.get_char(i) {
            return false;
        }
        i += 1;
    }
    true
}

impl DirectoryEntry {
    /// An entry without attributes.
    pub fn new() -> (entry: DirectoryEntry)
        ensures
            entry.attributes@.len() == 0,
    {
        DirectoryEntry { attributes: Vec::new() }
    }

    /// Adds an attribute behind those already there.
    pub fn insert(&mut self, name: String, values: Vec<String>)
        ensures
            final(self).attributes@ == old(self).attributes@.push(Attribute { name, values }),
            values_of(final(self).attributes@, name@) == Some(values@),
    {
        self.attributes.push(Attribute { name, values });
    }

    /// The values of the attribute `name`: those of its last occurrence.
    pub fn get(&self, name: &str) -> (found: Option<&Vec<String>>)
        ensures
            match found {
                Some(values) => values_of(self.attributes@, name@) == Some(values@),
                None => values_of(self.attributes@, name@) is None,
            },
    {
        let wanted = name.to_owned();
        let mut i: usize = self.attributes.len();
        assert(self.attributes@.take(i as int) =~= self.attributes@);
        while i > 0
            invariant
                i <= self.attributes@.len(),
                wanted@ == name@,
                values_of(self.attributes@, name@) == values_of(
                    self.attributes@.take(i as int),
                    name@,
                ),
            decreases i,
        {
            proof {
                let prefix = self.attributes@.take(i as int);
                assert(prefix.drop_last() =~= self.attributes@.take(i as int - 1));
            }
            if self.attributes[i - 1].name == wanted {
                return Some(&self.attributes[i - 1].values);
            }
            i -= 1;
        }
        None
    }

    /// The first value of the attribute `name`, or the empty text where the
    /// attribute is absent or has no value.
    pub fn first_value(&self, name: &str) -> (value: String)
        ensures
            value@ == first_value_of(self.attributes@, name@),
    {
        match self.get(name) {
            Some(values) => {
                if values.len() > 0 {
                    values[0].clone()
                } else {
                    String::new()
                }
            },
            None => String::new(),
        }
    }
}

impl RustLDAP {
    /// The URI of this session.
    pub closed spec fn uri(&self) -> Seq<char> {
        self.uri@
    }

    /// A session on `uri`. Refused, with the description of a bad
    /// parameter, exactly when `uri` does not name a directory server.
    pub fn new(uri: &str) -> (made: Result<RustLDAP, LDAPError>)
        ensures
            match made {
                Ok(session) => is_directory_uri(uri@) && session.uri() == uri@,
                Err(error) => !is_directory_uri(uri@) && error.text() == bad_parameter(),
            },
    {
        proof {
            reveal_strlit("ldap://");
            reveal_strlit("LDAP://");
            reveal_strlit("ldaps://");
            reveal_strlit("LDAPS://");
            reveal_strlit("ldapi://");
            reveal_strlit("LDAPI://");
            reveal_strlit("cldap://");
            reveal_strlit("CLDAP://");
        }
        if begins_either_case(uri, "ldap://", "LDAP://") || begins_either_case(
            uri,
            "ldaps://",
            "LDAPS://",
        ) || begins_either_case(uri, "ldapi://", "LDAPI://") || begins_either_case(
            uri,
            "cldap://",
            "CLDAP://",
        ) {
            Ok(RustLDAP { uri: uri.to_owned() })
        } else {
            Err(LDAPError::NativeError("Bad parameter to an ldap routine".to_owned()))
        }
    }

    /// The URI of this session.
    pub fn address(&self) -> (uri: &str)
        ensures
            uri@ == self.uri(),
    {
        self.uri.as_str()
    }

    /// The bind of `who` with the password `pass`.
    pub fn simple_bind(&self, who: &str, pass: &str) -> (request: BindRequest)
        ensures
            request.who@ == who@,
            request.pass@ == pass@,
    {
        BindRequest { who: who.to_owned(), pass: pass.to_owned() }
    }

    /// The plain search below `base`: no filter, every attribute with its
    /// values, no limit on the number of entries.
    pub fn simple_search(&self, base: &str, scope: i32) -> (request: SearchRequest)
        ensures
            request.base@ == base@,
            request.scope == scope,
            request.filter is None,
            request.attrs is None,
            !request.attrsonly,
            request.sizelimit == -1,
    {
        self.ldap_search(base, scope, None, None, false, -1)
    }

    /// The search below `base` with every parameter given.
    pub fn ldap_search(
        &self,
        base: &str,
        scope: i32,
        filter: Option<&str>,
        attrs: Option<Vec<String>>,
        attrsonly: bool,
        sizelimit: i32,
    ) -> (request: SearchRequest)
        ensures
            request.base@ == base@,
            request.scope == scope,
            match filter {
                Some(text) => request.filter matches Some(kept) && kept@ == text@,
                None => request.filter is None,
            },
            request.attrs == attrs,
            request.attrsonly == attrsonly,
            request.sizelimit == sizelimit,
    {
        let filter = match filter {
            Some(text) => Some(text.to_owned()),
            None => None,
        };
        SearchRequest { base: base.to_owned(), scope, filter, attrs, attrsonly, sizelimit }
    }
}

/// The result of a bind from the code the directory client returned and its
/// description of that code: any code but success is an error, a refusal by
/// the server (such as invalid credentials) as much as a failure to reach it.
pub fn bind_reply(code: i32, description: &str) -> (result: Result<i32, LDAPError>)
    ensures
        match result {
            Ok(kept) => code == LDAP_SUCCESS && kept == code,
            Err(error) => code != LDAP_SUCCESS && error.text() == description@,
        },
{
    if code != LDAP_SUCCESS {
        Err(LDAPError::NativeError(description.to_owned()))
    } else {
        Ok(code)
    }
}

/// The result of a search from the code the directory client returned, its
/// description of that code, and the entries it handed over: any code but
/// success is an error.
pub fn search_reply(code: i32, description: &str, entries: LDAPResponse) -> (result: Result<
    LDAPResponse,
    LDAPError,
>)
    ensures
        match result {
            Ok(kept) => code == LDAP_SUCCESS && kept == entries,
            Err(error) => code != LDAP_SUCCESS && error.text() == description@,
        },
{
    if code != LDAP_SUCCESS {
        Err(LDAPError::NativeError(description.to_owned()))
    } else {
        Ok(entries)
    }
}

/// Whether `error` says that the search base does not exist.
pub fn is_no_such_object(error: &LDAPError) -> (missing: bool)
    ensures
        missing == (error.text() == no_such_object()),
{
    error.description() == "No such object".to_owned()
}

} // verus!
