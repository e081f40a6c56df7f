//! The API: what the service says about itself, and the lookup of an access
//! token.

use crate::api_result::{failure, success, ApiResult, Cred, SystemInfo};
use crate::errno::{INVALID_TOKEN, INVALID_TOKEN_STR};
use crate::token_store::{resolve, TokenStore};
use vstd::prelude::*;

verus! {

/// The answer to a lookup.
pub enum LookupReply {
    /// The token is bound to this identity.
    Authentic(ApiResult<Cred>),
    /// The token is bound to nothing.
    Invalid(ApiResult<()>),
}

/// The access token of a lookup: the one it names, or the empty text.
pub fn access_token(requested: Option<&str>) -> (token: String)
    ensures
        token@ == match requested {
            Some(text) => text@,
            None => Seq::<char>::empty(),
        },
{
    match requested {
        Some(text) => text.to_owned(),
        None => String::new(),
    }
}

/// What the service says about itself at `server_time`.
pub fn system_info(server_time: u64, git_rev: &str, version: &str) -> (payload: ApiResult<
    SystemInfo,
>)
    ensures
        payload.error.is_clear(),
        payload.result.server_time == server_time,
        payload.result.git_rev@ == git_rev@,
        payload.result.version@ == version@,
{
    success(
        SystemInfo { server_time, git_rev: git_rev.to_owned(), version: version.to_owned() },
    )
}

/// Looks `access_token` up in `store`. A token that resolves is answered
/// with the identity and the distinguished name it is bound to; any other
/// with the error record of an invalid token.
pub fn lookup(store: &TokenStore, access_token: &str) -> (reply: LookupReply)
    ensures
        match resolve(store@, access_token@) {
            Some((uid, dn)) => {
                &&& reply matches LookupReply::Authentic(payload)
                &&& payload.error.is_clear()
                &&& payload.result.uid@ == uid
                &&& payload.result.dn matches Some(found)
                &&& found@ == dn
            },
            None => {
                &&& reply matches LookupReply::Invalid(payload)
                &&& payload.error.code == INVALID_TOKEN
                &&& payload.error.desc@ == INVALID_TOKEN_STR@
            },
        },
{
    match store.lookup(access_token) {
        Some((uid, dn)) => LookupReply::Authentic(success(Cred::with_dn(uid, dn))),
        None => LookupReply::Invalid(failure(INVALID_TOKEN, INVALID_TOKEN_STR)),
    }
}

} // verus!
