//! A volume plugin bridge for a replicated network-filesystem cluster.
//!
//! The library holds the logic of the bridge: request signing, the
//! asynchronous-operation protocol of the remote cluster manager, the framing
//! of requests to it, and the local cache that maps volume names to the
//! identifiers that the manager assigns.
pub mod gluster_cli;
pub mod heketi;
pub mod json;
pub mod poller;
pub mod signer;
pub mod state;
pub mod util;
