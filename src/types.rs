//! The request that the container manager sends.
use vstd::prelude::*;

verus! {

/// What the container manager asks for: the interface, the MAC that owns
/// the lease, names to attach, the namespace, and the IP version (0 for v4).
#[derive(Debug, Clone, PartialEq, Eq)]
pub struct NetworkConfig {
    pub container_iface: String,
    pub host_iface: String,
    pub container_mac_addr: String,
    pub domain_name: String,
    pub host_name: String,
    pub ns_path: String,
    pub version: i32,
}

} // verus!
