//! Client commands: each carries the request it sends.
use vstd::prelude::*;

use crate::types::NetworkConfig;

verus! {

/// Asks the proxy for a lease and its installation.
pub struct Setup {
    config: NetworkConfig,
}

impl Setup {
    pub closed spec fn request(&self) -> NetworkConfig {
        self.config
    }

    pub fn new(config: NetworkConfig) -> (r: Self)
        ensures
            r.request() == config,
    {
        Self { config }
    }

    /// The request the command sends.
    pub fn config(&self) -> (r: &NetworkConfig)
        ensures
            *r == self.request(),
    {
        &self.config
    }
}

/// Asks the proxy to release a lease.
pub struct Teardown {
    config: NetworkConfig,
}

impl Teardown {
    pub closed spec fn request(&self) -> NetworkConfig {
        self.config
    }

    pub fn new(config: NetworkConfig) -> (r: Self)
        ensures
            r.request() == config,
    {
        Self { config }
    }

    /// The request the command sends.
    pub fn config(&self) -> (r: &NetworkConfig)
        ensures
            *r == self.request(),
    {
        &self.config
    }
}

} // verus!
