//! Certificate provisioning and endpoint configuration.
//!
//! Turns a [`TrustMode`] into TLS-ready QUIC configuration through the
//! transport library. A verifying client gets a root store holding the
//! platform's default trust anchors — read by the caller and handed in as
//! DER bytes — plus the supplied extra root, if any; the server gets a
//! certificate/key context, file-provided or freshly self-signed; each is
//! completed with the tunnel's transport parameters, and the contracts
//! state which roots, which certificate chain and which parameters the
//! built configuration carries. The verification-bypass client mode is not
//! built here: it rests on a custom certificate verifier, an impl of an
//! outside trait, which the unverified caller must supply explicitly.

use vstd::prelude::*;

use crate::config::{KEEP_ALIVE_SECS, SERVER_MAX_BIDI_STREAMS, TransportParams, TrustMode};

verus! {

/// Why endpoint construction failed at startup. Startup errors are fatal:
/// the process exits; nothing is retried.
#[derive(Clone, Copy, Debug, PartialEq, Eq, Structural)]
pub enum StartupError {
    /// A certificate or key file could not be read. Produced by the caller
    /// that performs the reads; no function here does I/O.
    IoError,
    /// Supplied bytes did not parse as certificate or key material.
    CertFormatError,
    /// The TLS context could not be built.
    TlsConfigError,
    /// The local socket could not be bound. Produced by the caller that
    /// binds.
    BindError,
}

#[verifier::external_type_specification]
#[verifier::external_body]
pub struct ExRootCertStore(rustls::RootCertStore);

#[verifier::external_type_specification]
#[verifier::external_body]
pub struct ExRustlsError(rustls::Error);

#[verifier::external_type_specification]
#[verifier::external_body]
pub struct ExVerifierBuilderError(rustls::client::VerifierBuilderError);

#[verifier::external_type_specification]
#[verifier::external_body]
pub struct ExRcgenError(rcgen::Error);

#[verifier::external_type_specification]
#[verifier::external_body]
pub struct ExClientConfig(quinn::ClientConfig);

#[verifier::external_type_specification]
#[verifier::external_body]
pub struct ExServerConfig(quinn::ServerConfig);

#[verifier::external_type_specification]
#[verifier::external_body]
pub struct ExTransportConfig(quinn::TransportConfig);

/// The DER byte strings a root store has accepted, in insertion order.
pub uninterp spec fn store_roots(store: rustls::RootCertStore) -> Seq<Seq<u8>>;

/// Whether the given DER bytes parse as a trust-anchor certificate; the
/// outcome of webpki's `anchor_from_trusted_cert`, a function of the bytes
/// alone.
pub uninterp spec fn parses_as_root(der: Seq<u8>) -> bool;

/// Whether the given DER certificate and PKCS#8 DER key bytes are accepted
/// as server TLS material; the outcome of rustls's certificate/key
/// validation, a function of the bytes alone.
pub uninterp spec fn cert_key_parse_ok(cert_der: Seq<u8>, key_der: Seq<u8>) -> bool;

/// The subject-alternative names a DER certificate carries; a function of
/// the bytes alone.
pub uninterp spec fn cert_hosts(der: Seq<u8>) -> Set<Seq<char>>;

/// What a transport configuration holds of the parameters this tunnel sets:
/// the keep-alive interval in whole seconds (if one is set), then the
/// bidirectional and the unidirectional concurrent-stream caps.
pub uninterp spec fn transport_settings(transport: quinn::TransportConfig) -> (
    Option<u64>,
    u64,
    u64,
);

/// The DER roots a client configuration verifies peers against.
pub uninterp spec fn client_config_roots(config: quinn::ClientConfig) -> Seq<Seq<u8>>;

/// The transport parameters a client configuration carries, as in
/// [`transport_settings`].
pub uninterp spec fn client_config_settings(config: quinn::ClientConfig) -> (Option<u64>, u64, u64);

/// The DER certificate chain a server configuration presents.
pub uninterp spec fn server_config_chain(config: quinn::ServerConfig) -> Seq<Seq<u8>>;

/// The transport parameters a server configuration carries, as in
/// [`transport_settings`].
pub uninterp spec fn server_config_settings(config: quinn::ServerConfig) -> (Option<u64>, u64, u64);

/// The views of the given DER byte vectors, in order.
pub open spec fn der_views(ders: Seq<Vec<u8>>) -> Seq<Seq<u8>> {
    ders.map_values(|d: Vec<u8>| d@)
}

/// The DER strings among the given ones that parse as trust anchors, in
/// order: what a best-effort load keeps.
pub open spec fn parsable_roots(ders: Seq<Seq<u8>>) -> Seq<Seq<u8>>
    decreases ders.len(),
{
    if ders.len() == 0 {
        Seq::empty()
    } else if parses_as_root(ders.first()) {
        seq![ders.first()] + parsable_roots(ders.drop_first())
    } else {
        parsable_roots(ders.drop_first())
    }
}

/// Relies on rustls::RootCertStore::empty: a store with no anchors.
#[verifier::external_body]
fn root_store_empty() -> (store: rustls::RootCertStore)
    ensures
        store_roots(store) == Seq::<Seq<u8>>::empty(),
{
    rustls::RootCertStore::empty()
}

/// Relies on rustls::RootCertStore::add: parses the DER bytes as a trust
/// anchor and appends it; on a parse failure the store is unchanged.
#[verifier::external_body]
fn root_store_add(store: &mut rustls::RootCertStore, der: &Vec<u8>) -> (r: Result<
    (),
    rustls::Error,
>)
    ensures
        r is Ok <==> parses_as_root(der@),
        r is Ok ==> store_roots(*final(store)) == store_roots(*old(store)).push(der@),
        r is Err ==> store_roots(*final(store)) == store_roots(*old(store)),
{
    store.add(rustls::pki_types::CertificateDer::from(der.clone()))
}

/// Relies on rustls::RootCertStore::add_parsable_certificates: parses each
/// DER in order with the same anchor parser as `add`, keeps those that
/// parse and ignores the rest, returning how many were kept.
#[verifier::external_body]
fn root_store_add_parsable(store: &mut rustls::RootCertStore, ders: &Vec<Vec<u8>>) -> (added: usize)
    ensures
        store_roots(*final(store)) == store_roots(*old(store)) + parsable_roots(der_views(ders@)),
        added as nat == parsable_roots(der_views(ders@)).len(),
{
    let (added, _ignored) = store.add_parsable_certificates(
        ders.iter().map(|d| rustls::pki_types::CertificateDer::from(d.clone())),
    );
    added
}

/// Relies on quinn::ClientConfig::with_root_certificates: builds a WebPKI
/// server-certificate verifier over exactly the given roots; per its source
/// it fails exactly when the store holds no anchors.
#[verifier::external_body]
fn client_config_from_roots(store: rustls::RootCertStore) -> (r: Result<
    quinn::ClientConfig,
    rustls::client::VerifierBuilderError,
>)
    ensures
        r is Ok <==> store_roots(store).len() > 0,
        r matches Ok(config) ==> client_config_roots(config) == store_roots(store),
{
    quinn::ClientConfig::with_root_certificates(std::sync::Arc::new(store))
}

/// Relies on quinn::TransportConfig::default and its setters
/// max_concurrent_bidi_streams, max_concurrent_uni_streams and
/// keep_alive_interval, each of which stores the given value.
#[verifier::external_body]
fn new_transport_config(params: &TransportParams) -> (transport: quinn::TransportConfig)
    ensures
        transport_settings(transport) == (
            Some(params.keep_alive_secs),
            params.max_bidi_streams as u64,
            params.max_uni_streams as u64,
        ),
{
    let mut transport = quinn::TransportConfig::default();
    transport.max_concurrent_bidi_streams(quinn::VarInt::from_u32(params.max_bidi_streams));
    transport.max_concurrent_uni_streams(quinn::VarInt::from_u32(params.max_uni_streams));
    transport.keep_alive_interval(Some(std::time::Duration::from_secs(params.keep_alive_secs)));
    transport
}

/// Relies on quinn::ClientConfig::transport_config: installs the given
/// transport parameters and touches nothing else of the configuration.
#[verifier::external_body]
fn client_config_set_transport(config: &mut quinn::ClientConfig, transport: quinn::TransportConfig)
    ensures
        client_config_settings(*final(config)) == transport_settings(transport),
        client_config_roots(*final(config)) == client_config_roots(*old(config)),
{
    config.transport_config(std::sync::Arc::new(transport));
}

/// Relies on quinn::ServerConfig::transport_config: installs the given
/// transport parameters and touches nothing else of the configuration.
#[verifier::external_body]
fn server_config_set_transport(config: &mut quinn::ServerConfig, transport: quinn::TransportConfig)
    ensures
        server_config_settings(*final(config)) == transport_settings(transport),
        server_config_chain(*final(config)) == server_config_chain(*old(config)),
{
    config.transport_config(std::sync::Arc::new(transport));
}

/// Relies on rcgen::generate_simple_self_signed: generates a fresh key pair
/// and a matching self-signed certificate whose subject-alternative names
/// are exactly the given DNS name, both returned as DER bytes. The material
/// is random: nothing else relates two calls.
#[verifier::external_body]
fn generate_self_signed(host: &str) -> (r: Result<(Vec<u8>, Vec<u8>), rcgen::Error>)
    ensures
        r matches Ok(p) ==> cert_hosts(p.0@) == set![host@],
{
    match rcgen::generate_simple_self_signed(vec![String::from(host)]) {
        Ok(ck) => Ok((ck.cert.der().to_vec(), ck.key_pair.serialize_der())),
        Err(e) => Err(e),
    }
}

/// Relies on quinn::ServerConfig::with_single_cert: builds the server TLS
/// context presenting exactly the one given DER certificate, with a PKCS#8
/// DER private key; whether rustls accepts the material is a function of
/// the bytes alone.
#[verifier::external_body]
fn server_config_single_cert(cert_der: &Vec<u8>, key_der: &Vec<u8>) -> (r: Result<
    quinn::ServerConfig,
    rustls::Error,
>)
    ensures
        r is Ok <==> cert_key_parse_ok(cert_der@, key_der@),
        r matches Ok(config) ==> server_config_chain(config) == seq![cert_der@],
{
    let cert = rustls::pki_types::CertificateDer::from(cert_der.clone());
    let key = rustls::pki_types::PrivatePkcs8KeyDer::from(key_der.clone());
    quinn::ServerConfig::with_single_cert(vec![cert], key.into())
}

/// The hostname the self-signed server certificate is bound to.
pub fn self_signed_host() -> (s: &'static str)
    ensures
        s@ == "localhost"@,
{
    "localhost"
}

/// Client TLS and transport configuration for the verifying trust mode. The
/// root store holds the platform's default anchors — handed in as DER bytes
/// by the caller that read them, loaded best-effort as native stores carry
/// stale entries — plus the supplied extra root, if any, which must parse:
/// a malformed supplied root is a format error, exactly. With no supplied
/// root, verification runs against the platform anchors alone and fails
/// only when none of them parses, leaving nothing to verify against. The
/// built configuration carries exactly those roots and the client transport
/// parameters.
pub fn configure_client(platform_anchors: Vec<Vec<u8>>, trust: TrustMode) -> (r: Result<
    quinn::ClientConfig,
    StartupError,
>)
    requires
        trust is TrustStore,
    ensures
        trust matches TrustMode::TrustStore { ca_der: Some(der) } ==> (r is Ok <==> parses_as_root(
            der@,
        )),
        trust matches TrustMode::TrustStore { ca_der: Some(der) } ==> (r is Err ==> r->Err_0
            is CertFormatError),
        trust matches TrustMode::TrustStore { ca_der: Some(der) } ==> (r matches Ok(config)
            ==> client_config_roots(config) == parsable_roots(der_views(platform_anchors@)).push(
            der@,
        )),
        trust matches TrustMode::TrustStore { ca_der: None } ==> (r is Ok <==> parsable_roots(
            der_views(platform_anchors@),
        ).len() > 0),
        trust matches TrustMode::TrustStore { ca_der: None } ==> (r is Err ==> r->Err_0
            is TlsConfigError),
        trust matches TrustMode::TrustStore { ca_der: None } ==> (r matches Ok(config)
            ==> client_config_roots(config) == parsable_roots(der_views(platform_anchors@))),
        r matches Ok(config) ==> client_config_settings(config) == (
            Some(KEEP_ALIVE_SECS),
            100u64,
            100u64,
        ),
{
    let mut store = root_store_empty();
    let added = root_store_add_parsable(&mut store, &platform_anchors);
    proof {
        assert(store_roots(store) =~= parsable_roots(der_views(platform_anchors@)));
    }
    match trust {
        TrustMode::TrustStore { ca_der: Some(der) } => {
            match root_store_add(&mut store, &der) {
                Ok(()) => {},
                Err(_) => {
                    return Err(StartupError::CertFormatError);
                },
            }
        },
        _ => {
            if added == 0 {
                return Err(StartupError::TlsConfigError);
            }
        },
    }
    match client_config_from_roots(store) {
        Ok(mut config) => {
            let transport = new_transport_config(&TransportParams::client_defaults());
            client_config_set_transport(&mut config, transport);
            Ok(config)
        },
        Err(_) => Err(StartupError::TlsConfigError),
    }
}

/// Server TLS and transport configuration for a server trust mode: the
/// certificate/key context per the mode, completed with the server
/// transport parameters — the stream caps and keep-alive interval, fixed
/// here and never renegotiated. Returns the DER certificate the server will
/// present, which is exactly the built configuration's chain. File-provided
/// material succeeds exactly when rustls accepts the bytes; rejected bytes
/// are a format error. The self-signed fallback binds the fresh certificate
/// to the fixed hostname, keeps it in memory only, and fails only on
/// generation failure, as a TLS-configuration error.
pub fn configure_server(trust: TrustMode) -> (r: Result<
    (quinn::ServerConfig, Vec<u8>),
    StartupError,
>)
    requires
        trust is SelfSigned || trust is FileProvided,
    ensures
        trust matches TrustMode::FileProvided { cert_der, key_der } ==> (r is Ok
            <==> cert_key_parse_ok(cert_der@, key_der@)),
        trust matches TrustMode::FileProvided { cert_der, key_der } ==> (r is Err ==> r->Err_0
            is CertFormatError),
        trust matches TrustMode::FileProvided { cert_der, key_der } ==> (r matches Ok(p) ==> p.1@
            == cert_der@),
        trust is SelfSigned ==> (r is Err ==> r->Err_0 is TlsConfigError),
        trust is SelfSigned ==> (r matches Ok(p) ==> cert_hosts(p.1@) == set!["localhost"@]),
        r matches Ok(p) ==> server_config_chain(p.0) == seq![p.1@],
        r matches Ok(p) ==> server_config_settings(p.0) == (
            Some(KEEP_ALIVE_SECS),
            SERVER_MAX_BIDI_STREAMS as u64,
            0u64,
        ),
{
    match trust {
        TrustMode::FileProvided { cert_der, key_der } => {
            match server_config_single_cert(&cert_der, &key_der) {
                Ok(mut config) => {
                    let transport = new_transport_config(&TransportParams::server_defaults());
                    server_config_set_transport(&mut config, transport);
                    Ok((config, cert_der))
                },
                Err(_) => Err(StartupError::CertFormatError),
            }
        },
        _ => {
            match generate_self_signed(self_signed_host()) {
                Ok((cert_der, key_der)) => {
                    match server_config_single_cert(&cert_der, &key_der) {
                        Ok(mut config) => {
                            let transport = new_transport_config(
                                &TransportParams::server_defaults(),
                            );
                            server_config_set_transport(&mut config, transport);
                            Ok((config, cert_der))
                        },
                        Err(_) => Err(StartupError::TlsConfigError),
                    }
                },
                Err(_) => Err(StartupError::TlsConfigError),
            }
        },
    }
}

} // verus!
