//! What every handler works on: the configuration and the store of token
//! records.

use crate::config::Conf;
use crate::token_store::TokenStore;
use vstd::prelude::*;

verus! {

/// The configuration and the token store of a running service.
pub struct Context {
    pub conf: Conf,
    pub store: TokenStore,
}

impl Context {
    /// A context of `conf` over `store`.
    pub fn new(conf: Conf, store: TokenStore) -> (ctx: Context)
        ensures
            ctx.conf == conf,
            ctx.store == store,
    {
        Context { conf, store }
    }
}

} // verus!
