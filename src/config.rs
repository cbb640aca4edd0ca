//! Assembly of the protocol configuration.

use vstd::prelude::*;

use crate::addr::{PeerId, SocketAddress};

verus! {

/// A parameter set whose values the protocol engine supplies itself.
#[derive(Clone, Copy, Debug, PartialEq, Eq, Hash)]
pub enum Preset {
    /// The engine's standard values.
    Standard,
}

/// The network that the node joins.
#[derive(Clone, Debug, PartialEq, Eq, Hash)]
pub enum Network {
    /// The standard public network.
    Main,
    /// A network of its own, told apart by these bytes.
    Custom(Vec<u8>),
}

/// Which peers may request to pull replicated data from this node.
#[derive(Clone, Copy, Debug, PartialEq, Eq, Hash)]
pub enum RequestPull {
    /// No peer may.
    DenyAll,
}

impl RequestPull {
    /// Whether the policy admits a pull request from `peer`.
    pub open spec fn allows(self, peer: PeerId) -> bool {
        match self {
            RequestPull::DenyAll => false,
        }
    }

    /// Decides whether a pull request from `peer` is admitted.
    pub fn admits(&self, peer: &PeerId) -> (r: bool)
        ensures
            r == self.allows(*peer),
    {
        match self {
            RequestPull::DenyAll => false,
        }
    }
}

/// The configuration of the protocol stack.
#[derive(Clone, Debug, PartialEq, Eq)]
pub struct ProtocolConfig<P> {
    /// Where storage lives; passed through untouched.
    pub paths: P,
    /// The endpoint to bind.
    pub listen_addr: SocketAddress,
    /// Addresses to announce beyond the bound one; `None` announces none.
    pub advertised_addrs: Option<Vec<SocketAddress>>,
    /// Membership parameters.
    pub membership: Preset,
    /// The network joined.
    pub network: Network,
    /// Replication policy.
    pub replication: Preset,
    /// Rate-limit quotas for protocol traffic.
    pub rate_limits: Preset,
    /// Admission policy for inbound pull requests.
    pub request_pull: RequestPull,
}

/// The configuration of a peer: its signer, its protocol stack and its
/// storage.
#[derive(Clone, Debug, PartialEq, Eq)]
pub struct PeerConfig<S, P> {
    /// The signing capability of the node.
    pub signer: S,
    /// The protocol stack.
    pub protocol: ProtocolConfig<P>,
    /// Storage backend configuration.
    pub storage: Preset,
}

/// Whether `c` is the configuration assembled from `paths`, `signer` and
/// `listen_addr`: these passed through as they are, no advertised addresses,
/// the main network, pull requests denied, and standard values elsewhere.
pub open spec fn is_assembled_from<S, P>(
    c: PeerConfig<S, P>,
    paths: P,
    signer: S,
    listen_addr: SocketAddress,
) -> bool {
    &&& c.signer == signer
    &&& c.storage == Preset::Standard
    &&& c.protocol.paths == paths
    &&& c.protocol.listen_addr == listen_addr
    &&& c.protocol.advertised_addrs.is_none()
    &&& c.protocol.membership == Preset::Standard
    &&& c.protocol.network == Network::Main
    &&& c.protocol.replication == Preset::Standard
    &&& c.protocol.rate_limits == Preset::Standard
    &&& c.protocol.request_pull == RequestPull::DenyAll
}

/// Assembles the configuration of a peer that signs with `signer`, keeps its
/// storage under `paths` and listens on `listen_addr`. It never fails.
pub fn configure<S, P>(paths: P, signer: S, listen_addr: SocketAddress) -> (r: PeerConfig<S, P>)
    where
        S: Clone + Send + Sync,
    ensures
        is_assembled_from(r, paths, signer, listen_addr),
        r.protocol.listen_addr == listen_addr,
        r.protocol.advertised_addrs.is_none(),
        forall|peer: PeerId| !r.protocol.request_pull.allows(peer),
{
    PeerConfig {
        signer,
        protocol: ProtocolConfig {
            paths,
            listen_addr,
            advertised_addrs: None,
            membership: Preset::Standard,
            network: Network::Main,
            replication: Preset::Standard,
            rate_limits: Preset::Standard,
            request_pull: RequestPull::DenyAll,
        },
        storage: Preset::Standard,
    }
}

/// Configuration is deterministic: two configurations assembled from the same
/// paths, signer and listen address are equal, field by field.
pub proof fn lemma_configure_deterministic<S, P>(
    paths: P,
    signer: S,
    listen_addr: SocketAddress,
    c1: PeerConfig<S, P>,
    c2: PeerConfig<S, P>,
)
    requires
        is_assembled_from(c1, paths, signer, listen_addr),
        is_assembled_from(c2, paths, signer, listen_addr),
    ensures
        c1 == c2,
{
}

} // verus!
