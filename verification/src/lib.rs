//! Connection-pool management for clients of an RPC transport.
//!
//! The crate keeps a fixed, non-empty ordered sequence of endpoint
//! descriptors and picks which one to dial per connection request according
//! to a pluggable selection policy.  `TonicChannelManager` bridges that
//! configuration to the create/validate/is-broken lifecycle contract a
//! generic connection pool expects; the dialing itself, and the pool's own
//! bookkeeping, stay outside.

mod select;
mod transport;

pub use select::Choose;
pub use select::First;
pub use select::RoundRobin;
pub use select::Selector;
pub use select::index_for_count;
pub use select::lemma_round_robin_cycle;
pub use select::lemma_round_robin_index_in_range;
pub use select::round_robin_index;
pub use transport::endpoint_of;
pub use transport::uri_well_formed;

use std::sync::Arc;
use tonic::transport::Channel;
use tonic::transport::Endpoint;
use vstd::prelude::*;

verus! {

/// The errors this crate surfaces to its callers.  Dial and readiness
/// failures belong to the pool adapter around the crate; construction is the
/// only operation here that can fail.
#[derive(Debug)]
pub enum ManagerError {
    /// A malformed endpoint address, rejected at construction time, before
    /// any network activity; carries the transport crate's parse error.
    DescriptorParse(tonic::transport::Error),
}

/// Bridges a static endpoint configuration and a selection policy to the
/// create/validate/is-broken lifecycle contract of a generic connection
/// pool.
///
/// The endpoint sequence is set once at construction, is never empty, and is
/// never mutated afterwards; the selector is held through a shared handle,
/// so cloning the manager shares the selector's state instead of copying it.
#[derive(Debug, Clone)]
pub struct TonicChannelManager {
    endpoints: Vec<Endpoint>,
    selector: Arc<Selector>,
}

impl TonicChannelManager {
    /// The configured endpoint sequence.
    pub closed spec fn endpoints_seq(&self) -> Seq<Endpoint> {
        self.endpoints@
    }

    /// The configured selection policy.
    pub closed spec fn policy(&self) -> Selector {
        *self.selector
    }

    /// A manager is well formed when it has at least one endpoint to pick
    /// from.  Every constructor establishes this, and nothing mutates the
    /// sequence afterwards.
    pub open spec fn wf(&self) -> bool {
        self.endpoints_seq().len() >= 1
    }

    /// A manager over an explicit endpoint sequence and an explicit policy.
    pub fn new(endpoints: Vec<Endpoint>, selector: Arc<Selector>) -> (m: Self)
        requires
            endpoints@.len() >= 1,
        ensures
            m.wf(),
            m.endpoints_seq() == endpoints@,
            m.policy() == selector,
    {
        TonicChannelManager { endpoints, selector }
    }

    /// A manager that rotates over the given endpoints, starting at the
    /// first.
    pub fn new_round_robin(endpoints: Vec<Endpoint>) -> (m: Self)
        requires
            endpoints@.len() >= 1,
        ensures
            m.wf(),
            m.endpoints_seq() == endpoints@,
            m.policy() is RoundRobin,
    {
        Self::new(endpoints, Arc::new(Selector::RoundRobin(RoundRobin::new())))
    }

    /// A manager over a single endpoint, under the `First` policy: every
    /// connection request targets that one endpoint.
    pub fn new_single(endpoint: Endpoint) -> (m: Self)
        ensures
            m.wf(),
            m.endpoints_seq() =~= seq![endpoint],
            m.policy() == Selector::First(First),
    {
        TonicChannelManager {
            endpoints: vec![endpoint],
            selector: Arc::new(Selector::First(First)),
        }
    }

    /// A single-endpoint manager from a well-formed address literal: the
    /// manager over exactly the descriptor parsed from that address, under
    /// the `First` policy.
    pub fn from_static_single(uri: &'static str) -> (m: Self)
        requires
            uri_well_formed(uri@),
        ensures
            m.wf(),
            m.endpoints_seq().len() == 1,
            m.endpoints_seq()[0] == endpoint_of(uri@),
            m.policy() == Selector::First(First),
    {
        match transport::endpoint_from_shared(uri) {
            Ok(endpoint) => Self::new_single(endpoint),
            Err(_) => unreached(),
        }
    }

    /// A single-endpoint manager from an address literal that may be
    /// malformed: `None` exactly on a malformed address.
    pub fn try_from_static_single(uri: &'static str) -> (r: Option<Self>)
        ensures
            r is Some <==> uri_well_formed(uri@),
            r matches Some(m) ==> m.wf() && m.endpoints_seq().len() == 1
                && m.endpoints_seq()[0] == endpoint_of(uri@) && m.policy()
                == Selector::First(First),
    {
        match transport::endpoint_from_shared(uri) {
            Ok(_) => Some(Self::from_static_single(uri)),
            Err(_) => None,
        }
    }

    /// A single-endpoint manager from a dynamically supplied address:
    /// `Err` with a descriptor-parse error exactly on a malformed address,
    /// before any network activity; on success the manager holds exactly
    /// the descriptor parsed from the address.
    pub fn from_shared_single(uri: &str) -> (r: Result<Self, ManagerError>)
        ensures
            r is Ok <==> uri_well_formed(uri@),
            r matches Ok(m) ==> m.wf() && m.endpoints_seq().len() == 1
                && m.endpoints_seq()[0] == endpoint_of(uri@) && m.policy()
                == Selector::First(First),
            r matches Err(e) ==> e is DescriptorParse,
    {
        match transport::endpoint_from_shared(uri) {
            Ok(endpoint) => Ok(Self::new_single(endpoint)),
            Err(e) => Err(ManagerError::DescriptorParse(e)),
        }
    }

    /// Picks the endpoint the next connection request should dial, according
    /// to the configured policy.  Always an element of the configured
    /// sequence; under the `First` policy, always the one at position 0.
    pub fn choose_one(&self) -> (chosen: &Endpoint)
        requires
            self.wf(),
        ensures
            exists|i: int|
                0 <= i < self.endpoints_seq().len() && *chosen == self.endpoints_seq()[i],
            self.policy().selects(self.endpoints_seq(), *chosen),
            self.policy() is First ==> *chosen == self.endpoints_seq()[0],
    {
        self.selector.select(&self.endpoints)
    }

    /// How many endpoints the manager was configured with.
    pub fn endpoint_count(&self) -> (n: usize)
        ensures
            n == self.endpoints_seq().len(),
    {
        self.endpoints.len()
    }

    /// The is-broken half of the pool's lifecycle contract: a pooled
    /// connection is never reported broken here.  Liveness is surfaced
    /// reactively instead, through errors of actual request attempts and the
    /// pool's readiness probe.
    pub fn has_broken(&self, conn: &mut Channel) -> (b: bool)
        ensures
            b == false,
            *final(conn) == *old(conn),
    {
        false
    }
}

/// A single-endpoint manager always targets its one endpoint: under the
/// `First` policy a manager built over exactly one endpoint admits no other
/// pick, however many connection requests are made.
pub proof fn lemma_single_always_targets_endpoint(
    m: TonicChannelManager,
    endpoint: Endpoint,
    chosen: Endpoint,
)
    requires
        m.endpoints_seq() =~= seq![endpoint],
        m.policy() == Selector::First(First),
        m.policy().selects(m.endpoints_seq(), chosen),
    ensures
        chosen == endpoint,
{
}

} // verus!
