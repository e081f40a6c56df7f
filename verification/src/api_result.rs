//! The payloads of the API: a result together with an error record that is
//! all zero where nothing went wrong.

use vstd::prelude::*;

verus! {

/// The error record of a payload.
pub struct ErrorResp {
    pub code: i32,
    pub desc: String,
}

/// A payload: the error record and the result.
pub struct ApiResult<T> {
    pub error: ErrorResp,
    pub result: T,
}

/// The identity a token is bound to, with the distinguished name it was
/// found under where that is reported.
pub struct Cred {
    pub uid: String,
    pub dn: Option<String>,
}

/// What the service says about itself.
pub struct SystemInfo {
    pub server_time: u64,
    pub git_rev: String,
    pub version: String,
}

impl ErrorResp {
    /// Whether this record reports no error: code 0 and no description.
    pub open spec fn is_clear(&self) -> bool {
        self.code == 0 && self.desc@.len() == 0
    }
}

impl Default for ErrorResp {
    fn default() -> (record: ErrorResp)
        ensures
            record.is_clear(),
    {
        ErrorResp { code: 0, desc: String::new() }
    }
}

impl Cred {
    /// The identity `uid`, without a distinguished name.
    pub fn new(uid: String) -> (cred: Cred)
        ensures
            cred.uid == uid,
            cred.dn is None,
    {
        Cred { uid, dn: None }
    }

    /// The identity `uid` found under `dn`.
    pub fn with_dn(uid: String, dn: String) -> (cred: Cred)
        ensures
            cred.uid == uid,
            cred.dn == Some(dn),
    {
        Cred { uid, dn: Some(dn) }
    }
}

/// The payload of a success: `result` with a clear error record.
pub fn success<T>(result: T) -> (payload: ApiResult<T>)
    ensures
        payload.error.is_clear(),
        payload.result == result,
{
    ApiResult { error: ErrorResp::default(), result }
}

/// The payload of a failure: the error record made of `code` and `desc`, and
/// no result.
pub fn failure(code: i32, desc: &str) -> (payload: ApiResult<()>)
    ensures
        payload.error.code == code,
        payload.error.desc@ == desc@,
{
    ApiResult { error: ErrorResp { code, desc: desc.to_owned() }, result: () }
}

} // verus!
