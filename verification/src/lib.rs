//! A client library for public scientific-data services about the cosmos.
//!
//! The library holds the decisions of one request: which key is used, which
//! parameters are sent, whether the address is well formed, what happens after
//! each step of the exchange, and whether the answer has the shape that the
//! endpoint promises. The exchange over the network itself is left to the
//! program that uses the library: it does what an [`exchange::Action`] says
//! and reports back with an [`exchange::Event`].

use vstd::prelude::*;

pub mod address;
pub mod date;
pub mod document;
pub mod error;
pub mod exchange;
pub mod extract;
pub mod nasa;
pub mod query;
pub mod shape;

pub use crate::error::Error;

verus! {

/// The name under which every client announces itself.
pub open spec fn agent_name() -> Seq<char> {
    "kosmos"@
}

/// The entry to all services. It holds what every request shares; the
/// clients of the organisations are made from it.
#[derive(Debug, Clone)]
pub struct Kosmos {
    pub agent: String,
}

impl Kosmos {
    /// A client that announces itself as `kosmos`.
    pub fn new() -> (kosmos: Kosmos)
        ensures
            kosmos.agent@ == agent_name(),
    {
        Kosmos { agent: "kosmos".to_owned() }
    }

    /// The client of NASA's services, with the key that the configuration
    /// gives, or the demo key where it gives none.
    pub fn nasa(&self, configured: Option<String>) -> (client: nasa::NasaClient)
        ensures
            client.api_key@ == nasa::resolved(
                match configured {
                    Some(k) => Some(k@),
                    None => None,
                },
                nasa::demo_key(),
            ),
            client.api_key@.len() > 0,
    {
        nasa::NasaClient::new(configured)
    }
}

} // verus!
