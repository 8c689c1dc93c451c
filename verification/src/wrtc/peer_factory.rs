//! Per-process peer settings: the candidate network types, the DTLS
//! certificate pool size and UDP mux sharing.

use vstd::prelude::*;

verus! {

/// The candidate network types.
#[derive(Debug, Clone, Copy, PartialEq, Eq, Structural)]
pub enum NetworkType {
    UDP4,
    UDP6,
    TCP4,
    TCP6,
}

/// Options of the process-wide peer factory.
#[derive(Clone, Debug)]
pub struct FactoryOptions {
    pub network_types: Vec<NetworkType>,
    pub cert_pool_size: usize,
    pub shared_udp_mux: bool,
}

impl FactoryOptions {
    /// No network types, no pool size given, no shared mux.
    pub fn new() -> (out: FactoryOptions)
        ensures
            out.network_types@.len() == 0,
            out.cert_pool_size == 0,
            !out.shared_udp_mux,
    {
        FactoryOptions { network_types: Vec::new(), cert_pool_size: 0, shared_udp_mux: false }
    }
}

impl Default for FactoryOptions {
    /// No network types, no pool size given, no shared mux.
    fn default() -> (out: FactoryOptions)
        ensures
            out.network_types@.len() == 0,
            out.cert_pool_size == 0,
            !out.shared_udp_mux,
    {
        FactoryOptions::new()
    }
}

/// The size of the certificate pool the factory keeps: 8 when none is given.
pub fn effective_pool_size(options: &FactoryOptions) -> (out: usize)
    ensures
        out == (if options.cert_pool_size == 0 { 8 } else { options.cert_pool_size }),
{
    if options.cert_pool_size == 0 { 8 } else { options.cert_pool_size }
}

} // verus!
