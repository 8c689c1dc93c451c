//! The options of the client, with their defaults and builders, and how
//! they configure the per-process peer factory.

use vstd::prelude::*;
use crate::wrtc::peer_factory::{FactoryOptions, NetworkType as PeerNetworkType};

verus! {

/// The candidate network types a client may use.
#[derive(Debug, Clone, Copy, PartialEq, Eq, Structural)]
pub enum NetworkType {
    UDP4,
    UDP6,
    TCP4,
    TCP6,
}

pub const NETWORK_TYPE_UDP4: NetworkType = NetworkType::UDP4;
pub const NETWORK_TYPE_UDP6: NetworkType = NetworkType::UDP6;
pub const NETWORK_TYPE_TCP4: NetworkType = NetworkType::TCP4;
pub const NETWORK_TYPE_TCP6: NetworkType = NetworkType::TCP6;

/// The tag of a network type: 1 to 4 in the order UDP4, UDP6, TCP4, TCP6.
pub open spec fn network_type_code(n: NetworkType) -> u8 {
    match n {
        NetworkType::UDP4 => 1,
        NetworkType::UDP6 => 2,
        NetworkType::TCP4 => 3,
        NetworkType::TCP6 => 4,
    }
}

/// The peer factory's network type of the same name.
pub open spec fn peer_network_type(n: NetworkType) -> PeerNetworkType {
    match n {
        NetworkType::UDP4 => PeerNetworkType::UDP4,
        NetworkType::UDP6 => PeerNetworkType::UDP6,
        NetworkType::TCP4 => PeerNetworkType::TCP4,
        NetworkType::TCP6 => PeerNetworkType::TCP6,
    }
}

impl NetworkType {
    /// The tag of the network type.
    pub fn code(&self) -> (out: u8)
        ensures
            out == network_type_code(*self),
    {
        match self {
            NetworkType::UDP4 => 1,
            NetworkType::UDP6 => 2,
            NetworkType::TCP4 => 3,
            NetworkType::TCP6 => 4,
        }
    }

    /// The peer factory's network type of the same name.
    pub fn to_peer(&self) -> (out: PeerNetworkType)
        ensures
            out == peer_network_type(*self),
    {
        match self {
            NetworkType::UDP4 => PeerNetworkType::UDP4,
            NetworkType::UDP6 => PeerNetworkType::UDP6,
            NetworkType::TCP4 => PeerNetworkType::TCP4,
            NetworkType::TCP6 => PeerNetworkType::TCP6,
        }
    }
}

/// The options of a client.
#[derive(Clone, Debug)]
pub struct ClientOptions {
    pub ffmpeg_path: String,
    pub connect_timeout_secs: u64,
    pub dispatch_buf: usize,
    pub cert_pool_size: usize,
    pub shared_udp_mux: bool,
    pub ffmpeg_stderr_log: bool,
    pub use_direct_transport: bool,
    pub network_types: Vec<NetworkType>,
    pub debug_logs: bool,
    pub verbose_connection_logs: bool,
}

/// Whether `o` holds the default options: `ffmpeg` on the path, a 10 s
/// connect timeout, a dispatch queue of 256, 8 pooled certificates, UDP
/// over IPv4 and IPv6, everything else off.
pub open spec fn is_default_options(o: ClientOptions) -> bool {
    &&& o.ffmpeg_path@ == "ffmpeg"@
    &&& o.connect_timeout_secs == 10
    &&& o.dispatch_buf == 256
    &&& o.cert_pool_size == 8
    &&& !o.shared_udp_mux
    &&& !o.ffmpeg_stderr_log
    &&& !o.use_direct_transport
    &&& o.network_types@ == seq![NetworkType::UDP4, NetworkType::UDP6]
    &&& !o.debug_logs
    &&& !o.verbose_connection_logs
}

impl Default for ClientOptions {
    /// The default options (see `is_default_options`).
    fn default() -> (out: ClientOptions)
        ensures
            is_default_options(out),
    {
        ClientOptions::new()
    }
}

impl ClientOptions {
    /// The default options.
    pub fn new() -> (out: ClientOptions)
        ensures
            is_default_options(out),
    {
        let mut network_types: Vec<NetworkType> = Vec::new();
        network_types.push(NetworkType::UDP4);
        network_types.push(NetworkType::UDP6);
        assert(network_types@ =~= seq![NetworkType::UDP4, NetworkType::UDP6]);
        ClientOptions {
            ffmpeg_path: String::from_str("ffmpeg"),
            connect_timeout_secs: 10,
            dispatch_buf: 256,
            cert_pool_size: 8,
            shared_udp_mux: false,
            ffmpeg_stderr_log: false,
            use_direct_transport: false,
            network_types,
            debug_logs: false,
            verbose_connection_logs: false,
        }
    }

    /// Uses the ffmpeg binary at `path`.
    pub fn with_ffmpeg_path(self, path: &str) -> (out: ClientOptions)
        ensures
            out.ffmpeg_path@ == path@,
            out == (ClientOptions { ffmpeg_path: out.ffmpeg_path, ..self }),
    {
        ClientOptions { ffmpeg_path: String::from_str(path), ..self }
    }

    /// Turns debug logs on.
    pub fn with_debug_logs(self) -> (out: ClientOptions)
        ensures
            out == (ClientOptions { debug_logs: true, ..self }),
    {
        ClientOptions { debug_logs: true, ..self }
    }

    /// Keeps ffmpeg's stderr for error reports.
    pub fn with_ffmpeg_stderr_log(self) -> (out: ClientOptions)
        ensures
            out == (ClientOptions { ffmpeg_stderr_log: true, ..self }),
    {
        ClientOptions { ffmpeg_stderr_log: true, ..self }
    }

    /// Shares one UDP socket between calls.
    pub fn with_shared_udp_mux(self) -> (out: ClientOptions)
        ensures
            out == (ClientOptions { shared_udp_mux: true, ..self }),
    {
        ClientOptions { shared_udp_mux: true, ..self }
    }

    /// Keeps `size` pre-generated DTLS certificates.
    pub fn with_dtls_cert_pool(self, size: usize) -> (out: ClientOptions)
        ensures
            out == (ClientOptions { cert_pool_size: size, ..self }),
    {
        ClientOptions { cert_pool_size: size, ..self }
    }

    /// Queues at most `size` pending callbacks.
    pub fn with_dispatch_buffer(self, size: usize) -> (out: ClientOptions)
        ensures
            out == (ClientOptions { dispatch_buf: size, ..self }),
    {
        ClientOptions { dispatch_buf: size, ..self }
    }

    /// Uses the given candidate network types.
    pub fn with_network_types(self, types: Vec<NetworkType>) -> (out: ClientOptions)
        ensures
            out == (ClientOptions { network_types: types, ..self }),
    {
        ClientOptions { network_types: types, ..self }
    }

    /// Waits at most `secs` seconds for a connection before a source is set.
    pub fn with_connect_timeout(self, secs: u64) -> (out: ClientOptions)
        ensures
            out == (ClientOptions { connect_timeout_secs: secs, ..self }),
    {
        ClientOptions { connect_timeout_secs: secs, ..self }
    }

    /// Turns the direct transport on or off.
    pub fn with_direct_transport(self, enabled: bool) -> (out: ClientOptions)
        ensures
            out == (ClientOptions { use_direct_transport: enabled, ..self }),
    {
        ClientOptions { use_direct_transport: enabled, ..self }
    }

    /// Turns verbose connection logs on.
    pub fn with_verbose_connection_logs(self) -> (out: ClientOptions)
        ensures
            out == (ClientOptions { verbose_connection_logs: true, ..self }),
    {
        ClientOptions { verbose_connection_logs: true, ..self }
    }

    /// The peer factory options these options give: the same network types
    /// in the same order, pool size and UDP mux sharing.
    pub fn factory_options(&self) -> (out: FactoryOptions)
        ensures
            out.network_types@ == self.network_types@.map_values(|n: NetworkType| peer_network_type(n)),
            out.cert_pool_size == self.cert_pool_size,
            out.shared_udp_mux == self.shared_udp_mux,
    {
        let mut types: Vec<PeerNetworkType> = Vec::new();
        let mut i: usize = 0;
        while i < self.network_types.len()
            invariant
                i <= self.network_types@.len(),
                types@ == self.network_types@.take(i as int).map_values(|n: NetworkType| peer_network_type(n)),
            decreases self.network_types@.len() - i,
        {
            types.push(self.network_types[i].to_peer());
            assert(self.network_types@.take(i as int + 1).map_values(|n: NetworkType| peer_network_type(n))
                =~= self.network_types@.take(i as int).map_values(|n: NetworkType| peer_network_type(n))
                    .push(peer_network_type(self.network_types@[i as int])));
            i = i + 1;
        }
        assert(self.network_types@.take(self.network_types@.len() as int) =~= self.network_types@);
        FactoryOptions { network_types: types, cert_pool_size: self.cert_pool_size, shared_udp_mux: self.shared_udp_mux }
    }
}

} // verus!
