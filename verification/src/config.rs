//! Endpoint configuration: roles, trust modes and transport parameters.

use vstd::prelude::*;

verus! {

/// Which side of the tunnel an endpoint serves.
#[derive(Clone, Copy, PartialEq, Eq, Structural)]
pub enum Role {
    /// Accepts local TCP connections and opens QUIC streams to the peer.
    Client,
    /// Accepts QUIC streams and opens TCP connections to the destination.
    Server,
}

/// The TLS trust policy of an endpoint. Exactly one mode is active per
/// endpoint; servers present material, clients verify it.
pub enum TrustMode {
    /// Server: a fresh self-signed certificate for the fixed hostname,
    /// generated in memory for this process run.
    SelfSigned,
    /// Server: certificate and private key supplied as DER bytes, already
    /// read from the configured files.
    FileProvided { cert_der: Vec<u8>, key_der: Vec<u8> },
    /// Client: the peer certificate must chain to one of the supplied
    /// DER-encoded roots.
    TrustStore { ca_der: Option<Vec<u8>> },
    /// Client: accept any peer certificate without inspection. Dangerous;
    /// reachable only through an explicit opt-in flag.
    InsecureSkipVerify,
}

/// Which trust modes a role admits: servers only present material, clients
/// only verify it.
pub open spec fn role_allows(role: Role, trust: TrustMode) -> bool {
    match role {
        Role::Client => trust is TrustStore || trust is InsecureSkipVerify,
        Role::Server => trust is SelfSigned || trust is FileProvided,
    }
}

/// Everything needed to construct one endpoint: its role, the local address
/// to bind (as written on the command line; the caller resolves and binds),
/// and the active trust mode.
pub struct EndpointConfig {
    pub role: Role,
    pub bind_addr: String,
    pub trust: TrustMode,
}

impl EndpointConfig {
    /// The configuration invariant: the trust mode matches the role.
    pub open spec fn wf(&self) -> bool {
        role_allows(self.role, self.trust)
    }

    /// Client configuration. The verification bypass is taken exactly when
    /// the explicit `insecure` flag is set; otherwise the peer is verified
    /// against the supplied root, never silently skipped for want of one.
    pub fn client(bind_addr: String, ca_der: Option<Vec<u8>>, insecure: bool) -> (c: Self)
        ensures
            c.wf(),
            c.role is Client,
            c.bind_addr == bind_addr,
            c.trust is InsecureSkipVerify <==> insecure,
            !insecure ==> c.trust == (TrustMode::TrustStore { ca_der }),
    {
        let trust = if insecure {
            TrustMode::InsecureSkipVerify
        } else {
            TrustMode::TrustStore { ca_der }
        };
        EndpointConfig { role: Role::Client, bind_addr, trust }
    }

    /// Server configuration. File-provided material is used only when both
    /// the certificate and the key were supplied; otherwise the server falls
    /// back to a fresh self-signed certificate.
    pub fn server(bind_addr: String, cert_der: Option<Vec<u8>>, key_der: Option<Vec<u8>>) -> (c:
        Self)
        ensures
            c.wf(),
            c.role is Server,
            c.bind_addr == bind_addr,
            cert_der matches Some(cd) ==> key_der matches Some(kd) ==> c.trust == (
            TrustMode::FileProvided { cert_der: cd, key_der: kd }),
            (cert_der is None || key_der is None) ==> c.trust is SelfSigned,
    {
        let trust = match (cert_der, key_der) {
            (Some(cd), Some(kd)) => TrustMode::FileProvided { cert_der: cd, key_der: kd },
            _ => TrustMode::SelfSigned,
        };
        EndpointConfig { role: Role::Server, bind_addr, trust }
    }
}

/// Trust mode exclusivity: the two roles admit disjoint sets of trust modes,
/// so a well-formed server endpoint can never carry the client-side
/// verification bypass, and a well-formed client endpoint can never present
/// server material.
pub proof fn lemma_trust_modes_disjoint(trust: TrustMode)
    ensures
        !(role_allows(Role::Client, trust) && role_allows(Role::Server, trust)),
{
}

/// The verification bypass is explicit: no well-formed server configuration
/// carries it, and `EndpointConfig::client` produces it exactly on its
/// opt-in flag (see that constructor's contract).
pub proof fn lemma_bypass_never_on_server(c: EndpointConfig)
    requires
        c.wf(),
        c.role is Server,
    ensures
        !(c.trust is InsecureSkipVerify),
{
}

/// QUIC transport parameters negotiated at endpoint construction.
pub struct TransportParams {
    /// Keep-alive interval in seconds, to detect dead peers and keep
    /// NAT/firewall state alive on long-lived tunnels.
    pub keep_alive_secs: u64,
    /// Most concurrent bidirectional streams one peer may open.
    pub max_bidi_streams: u32,
    /// Most concurrent unidirectional streams; the tunnel never uses them.
    pub max_uni_streams: u32,
}

/// Keep-alive interval, both roles.
pub const KEEP_ALIVE_SECS: u64 = 2;

/// Cap on concurrent bidirectional streams per connection on the server.
pub const SERVER_MAX_BIDI_STREAMS: u32 = 100;

impl TransportParams {
    /// Server transport parameters: bounded concurrent bidirectional
    /// streams, no unidirectional streams, and the keep-alive interval.
    pub fn server_defaults() -> (p: Self)
        ensures
            p.keep_alive_secs == KEEP_ALIVE_SECS,
            p.max_bidi_streams == SERVER_MAX_BIDI_STREAMS,
            p.max_uni_streams == 0,
    {
        TransportParams {
            keep_alive_secs: KEEP_ALIVE_SECS,
            max_bidi_streams: SERVER_MAX_BIDI_STREAMS,
            max_uni_streams: 0,
        }
    }

    /// Client transport parameters: the same keep-alive interval, with the
    /// transport's stock stream limits.
    pub fn client_defaults() -> (p: Self)
        ensures
            p.keep_alive_secs == KEEP_ALIVE_SECS,
            p.max_bidi_streams == 100,
            p.max_uni_streams == 100,
    {
        TransportParams { keep_alive_secs: KEEP_ALIVE_SECS, max_bidi_streams: 100, max_uni_streams: 100 }
    }
}

/// The fixed server-name identifier spoken at the TLS layer; the tunnel
/// negotiates no further application protocol.
pub fn tunnel_server_name() -> (s: &'static str)
    ensures
        s@ == "server"@,
{
    "server"
}

} // verus!
