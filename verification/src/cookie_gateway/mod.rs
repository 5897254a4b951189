//! The cookie gateway: a store of browser cookies for a whitelist of
//! domains, the rules by which they are served fresh or refreshed, and the
//! checks its HTTP endpoints make.
use vstd::prelude::*;

pub mod command_bus;
pub mod error;
pub mod gateway;
pub mod proxy;
pub mod store;
pub mod tool;

use crate::cookie_gateway::store::CookieStore;

verus! {

/// The gateway around a cookie store.
pub struct CookieGateway {
    store: CookieStore,
}

impl CookieGateway {
    /// The store the gateway serves.
    pub closed spec fn served(&self) -> CookieStore {
        self.store
    }

    /// The gateway serving `store`.
    pub fn new(store: CookieStore) -> (r: CookieGateway)
        ensures
            r.served() == store,
    {
        CookieGateway { store }
    }

    /// The store, taken out of the gateway to be served.
    pub fn into_store(self) -> (r: CookieStore)
        ensures
            r == self.served(),
    {
        self.store
    }

    /// The store the gateway serves.
    pub fn store(&self) -> (r: &CookieStore)
        ensures
            *r == self.served(),
    {
        &self.store
    }
}

} // verus!
