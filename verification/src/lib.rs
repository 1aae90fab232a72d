//! Account-ledger core of a permissioned-chain mining-pool service.
//!
//! The library keeps per-account balances and append-only transaction
//! histories in an authenticated key-value store model, executes the four
//! transaction kinds deterministically against a mutable fork of that store,
//! and assembles proof bundles that let a client check account state against
//! the store's Merkle roots.

use vstd::prelude::*;

pub mod account;
pub mod api;
pub mod crypto;
pub mod error;
pub mod mapping;
pub mod merkle;
pub mod schema;
pub mod transactions;
pub mod types;

pub use error::Error;
pub use schema::CoreSchema;
pub use schema::Fork;

verus! {

/// Unique service identifier inside the host chain.
pub const SERVICE_ID: u16 = 128;

/// Balance granted to every newly created account.
pub const INITIAL_BALANCE: u64 = 100;

/// The service's registered name.
pub open spec fn service_name_spec() -> Seq<char> {
    "simple"@
}

/// The ledger service as the host chain sees it: a name, an identifier, and
/// a state-commitment contribution computed from a committed snapshot.
#[derive(Default, Debug)]
pub struct CoreService;

impl CoreService {
    /// The service's registered name.
    pub fn service_name(&self) -> (r: &'static str)
        ensures
            r@ == service_name_spec(),
    {
        "simple"
    }

    /// The service's identifier.
    pub fn service_id(&self) -> (r: u16)
        ensures
            r == SERVICE_ID,
    {
        SERVICE_ID
    }

    /// The service's contribution to the chain's global state commitment.
    pub fn state_hash(&self, view: &CoreSchema) -> (r: Vec<types::HashVal>)
        ensures
            schema::hash_views(r@) == seq![
                merkle::accounts_root(view.accounts_views()),
            ],
    {
        view.state_hash()
    }
}

/// Builds the service for the host's service registry.
#[derive(Debug)]
pub struct ServiceFactory;

impl ServiceFactory {
    /// The service's registered name.
    pub fn service_name(&self) -> (r: &'static str)
        ensures
            r@ == service_name_spec(),
    {
        "simple"
    }

    /// Creates the service instance.
    pub fn make_service(&mut self) -> (r: CoreService)
    {
        CoreService
    }
}

} // verus!
