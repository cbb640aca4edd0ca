//! Configuration and peer discovery for a node of a replicated peer-to-peer
//! network.
//!
//! [`configure`] assembles the protocol configuration from the node's paths,
//! signer and listen address; a [`Discovery`] provider is handed to the
//! protocol engine beside it and turned, once, into a sequence of bootstrap
//! candidates that the engine polls.

pub mod addr;
pub mod config;
pub mod discovery;

pub use addr::{localhost_any, PeerId, SocketAddress};
pub use config::{configure, Network, PeerConfig, Preset, ProtocolConfig, RequestPull};
pub use discovery::{
    Candidate, CandidateStream, Discovery, NoDiscovery, NoDiscoveryStream, PollNext,
    StaticDiscovery, StaticStream,
};
