//! TLS configuration: one certified key per secured virtual host, chosen by the name
//! the client asks for.

use std::sync::Arc;

use rustls::pki_types::{CertificateDer, PrivateKeyDer};
use rustls::server::ResolvesServerCertUsingSni;
use rustls::sign::CertifiedKey;
use rustls::ServerConfig as TlsServerConfig;
use vstd::prelude::*;

use crate::config::server::virtual_host::{SecurityConfig, SecuritySettings};
use crate::errors::{StartError, VetisError};
use crate::server::virtual_host::registry::VirtualHosts;
use crate::server::virtual_host::VirtualHost;

verus! {

#[verifier::external_type_specification]
#[verifier::external_body]
pub struct ExCryptoProvider(rustls::crypto::CryptoProvider);

#[verifier::external_type_specification]
#[verifier::external_body]
pub struct ExResolvesServerCertUsingSni(rustls::server::ResolvesServerCertUsingSni);

#[verifier::external_type_specification]
#[verifier::external_body]
pub struct ExPrivateKeyDer<'a>(rustls::pki_types::PrivateKeyDer<'a>);

#[verifier::external_type_specification]
#[verifier::external_body]
pub struct ExCertifiedKey(rustls::sign::CertifiedKey);

#[verifier::external_type_specification]
#[verifier::external_body]
pub struct ExTlsServerConfig(TlsServerConfig);

/// Whether `rustls` recognizes the bytes as a DER private key (PKCS#1, SEC1 or PKCS#8).
pub uninterp spec fn private_key_recognized(der: Seq<u8>) -> bool;

/// Whether the `ring` provider loads the DER private key and finds it consistent with
/// the first certificate of the DER chain.
pub uninterp spec fn ring_key_certifies(chain: Seq<Seq<u8>>, key: Seq<u8>) -> bool;

/// What registering a certificate chain for a server name gives: the name it is
/// stored under (the DNS name in lower case), or the text of the error when the name
/// is not a DNS name or the first certificate is not valid for it.
pub uninterp spec fn sni_add_result(name: Seq<char>, chain: Seq<Seq<u8>>) -> Result<
    Seq<char>,
    Seq<char>,
>;

/// The certificates a name resolver holds: for each stored name, the DER chain and
/// the DER private key registered for it.
pub uninterp spec fn sni_entries(resolver: ResolvesServerCertUsingSni) -> Map<
    Seq<char>,
    (Seq<Seq<u8>>, Seq<u8>),
>;

/// No certificates.
pub open spec fn no_certificates() -> Map<Seq<char>, (Seq<Seq<u8>>, Seq<u8>)> {
    Map::empty()
}

/// The byte strings of a list of byte vectors.
pub open spec fn byte_strings(v: Seq<Vec<u8>>) -> Seq<Seq<u8>> {
    v.map_values(|b: Vec<u8>| b@)
}

/// The TLS protocol versions a server may speak.
#[derive(Clone, Copy, Debug, PartialEq, Eq, Structural)]
pub enum TlsVersion {
    /// TLS 1.2
    Tls12,
    /// TLS 1.3
    Tls13,
}

/// The cryptography of the `ring` crate; no other value of this type exists.
pub struct RingProvider {
    inner: rustls::crypto::CryptoProvider,
}

/// A DER private key that `rustls` recognized, with its bytes.
pub struct KeyDer {
    der: Vec<u8>,
    key: PrivateKeyDer<'static>,
}

impl KeyDer {
    /// The DER bytes of the key.
    pub closed spec fn der(self) -> Seq<u8> {
        self.der@
    }
}

/// A certificate chain paired with its private key, with their bytes.
pub struct Certified {
    chain: Vec<Vec<u8>>,
    key: Vec<u8>,
    inner: CertifiedKey,
}

impl Certified {
    /// The DER certificates, the end-entity certificate first.
    pub closed spec fn chain(self) -> Seq<Seq<u8>> {
        byte_strings(self.chain@)
    }

    /// The DER private key.
    pub closed spec fn key(self) -> Seq<u8> {
        self.key@
    }
}

/// A TLS server configuration, with the settings it was built with.
pub struct ServerTls {
    config: TlsServerConfig,
    alpn: Vec<Vec<u8>>,
    max_early_data: u32,
    versions: Vec<TlsVersion>,
    certificates: Ghost<Map<Seq<char>, (Seq<Seq<u8>>, Seq<u8>)>>,
}

impl ServerTls {
    /// The ALPN protocols offered to clients, in order of preference.
    pub closed spec fn alpn(self) -> Seq<Seq<u8>> {
        byte_strings(self.alpn@)
    }

    /// The most early data accepted, in bytes.
    pub closed spec fn max_early_data(self) -> u32 {
        self.max_early_data
    }

    /// The protocol versions enabled.
    pub closed spec fn versions(self) -> Seq<TlsVersion> {
        self.versions@
    }

    /// The certificates, by the server name they answer.
    pub closed spec fn certificates(self) -> Map<Seq<char>, (Seq<Seq<u8>>, Seq<u8>)> {
        self.certificates@
    }

    /// Returns the ALPN protocols offered to clients.
    pub fn alpn_protocols(&self) -> (res: &Vec<Vec<u8>>)
        ensures
            byte_strings(res@) == self.alpn(),
    {
        &self.alpn
    }

    /// Returns the most early data accepted.
    pub fn max_early_data_size(&self) -> (res: u32)
        ensures
            res == self.max_early_data(),
    {
        self.max_early_data
    }

    /// Gives up the settings and returns the `rustls` configuration.
    pub fn into_config(self) -> TlsServerConfig {
        self.config
    }
}

/// The cryptography of the `ring` crate.
///
/// Calls `rustls::crypto::ring::default_provider`.
#[verifier::external_body]
fn ring_provider() -> RingProvider {
    RingProvider { inner: rustls::crypto::ring::default_provider() }
}

/// A certificate resolver with no names.
///
/// Calls `rustls::server::ResolvesServerCertUsingSni::new`, which holds no names.
#[verifier::external_body]
fn sni_resolver() -> (res: ResolvesServerCertUsingSni)
    ensures
        sni_entries(res) == no_certificates(),
{
    ResolvesServerCertUsingSni::new()
}

/// Reads DER bytes as a private key.
///
/// Calls `TryFrom<Vec<u8>>` of `rustls::pki_types::PrivateKeyDer`. Its source refuses
/// bytes that do not open with a DER SEQUENCE tag (0x30) and a length byte.
#[verifier::external_body]
fn private_key_der(der: Vec<u8>) -> (res: Option<KeyDer>)
    ensures
        res is Some <==> private_key_recognized(der@),
        res is Some ==> res->Some_0.der() == der@,
        !(der@.len() >= 2 && der@[0] == 0x30u8) ==> res is None,
{
    match PrivateKeyDer::try_from(der.clone()) {
        Ok(key) => Some(KeyDer { der, key }),
        Err(_) => None,
    }
}

/// Pairs a DER certificate chain with its private key.
///
/// Calls `rustls::sign::CertifiedKey::from_der` with the `ring` provider, which loads
/// the key and checks it against the first certificate; the chain's bytes are wrapped
/// as `CertificateDer` values unchanged.
#[verifier::external_body]
fn certified_key(chain: Vec<Vec<u8>>, key: KeyDer, provider: &RingProvider) -> (res: Option<
    Certified,
>)
    ensures
        res is Some <==> ring_key_certifies(byte_strings(chain@), key.der()),
        res is Some ==> res->Some_0.chain() == byte_strings(chain@) && res->Some_0.key()
            == key.der(),
{
    let certs: Vec<CertificateDer<'static>> = chain.iter().cloned().map(CertificateDer::from).collect();
    match CertifiedKey::from_der(certs, key.key, &provider.inner) {
        Ok(inner) => Some(Certified { chain, key: key.der, inner }),
        Err(_) => None,
    }
}

/// Registers a certified key for a server name.
///
/// Calls `rustls::server::ResolvesServerCertUsingSni::add`. Its source checks the name
/// and the first certificate before storing anything, stores under the lower-case DNS
/// name, and replaces an earlier key under that name. The error is kept as its text.
#[verifier::external_body]
fn add_certified_key(resolver: &mut ResolvesServerCertUsingSni, name: &str, key: Certified) -> (res:
    Result<(), String>)
    ensures
        res is Ok <==> sni_add_result(name@, key.chain()) is Ok,
        res is Ok ==> sni_entries(*final(resolver)) == sni_entries(*old(resolver)).insert(
            sni_add_result(name@, key.chain())->Ok_0,
            (key.chain(), key.key()),
        ),
        res is Err ==> sni_entries(*final(resolver)) == sni_entries(*old(resolver))
            && res->Err_0@ == sni_add_result(name@, key.chain())->Err_0,
{
    resolver.add(name, key.inner).map_err(|e| format!("{}", e))
}

/// Builds a TLS server configuration with the given provider, certificates, protocol
/// versions, early-data limit and ALPN protocols, asking for no client certificates.
///
/// Calls `rustls::ServerConfig::builder_with_provider`, `with_protocol_versions`,
/// `with_no_client_auth` and `with_cert_resolver`, and sets the fields
/// `max_early_data_size` and `alpn_protocols`. With the `ring` provider the versions
/// are refused only when none of them has a cipher suite, which TLS 1.3 always has.
#[verifier::external_body]
fn tls_server_config(
    provider: RingProvider,
    resolver: ResolvesServerCertUsingSni,
    versions: Vec<TlsVersion>,
    max_early_data: u32,
    alpn: Vec<Vec<u8>>,
) -> (res: Result<ServerTls, String>)
    ensures
        versions@.contains(TlsVersion::Tls13) ==> res is Ok,
        res is Ok ==> res->Ok_0.certificates() == sni_entries(resolver) && res->Ok_0.alpn()
            == byte_strings(alpn@) && res->Ok_0.max_early_data() == max_early_data
            && res->Ok_0.versions() == versions@,
{
    let certificates = Ghost(sni_entries(resolver));
    let enabled: Vec<&'static rustls::SupportedProtocolVersion> = versions
        .iter()
        .map(|v| match v {
            TlsVersion::Tls12 => &rustls::version::TLS12,
            TlsVersion::Tls13 => &rustls::version::TLS13,
        })
        .collect();
    let builder = TlsServerConfig::builder_with_provider(Arc::new(provider.inner))
        .with_protocol_versions(&enabled)
        .map_err(|e| format!("{}", e))?;
    let mut config = builder.with_no_client_auth().with_cert_resolver(Arc::new(resolver));
    config.max_early_data_size = max_early_data;
    config.alpn_protocols = alpn.clone();
    Ok(ServerTls { config, alpn, max_early_data, versions, certificates })
}

/// The DER certificate chain of a security configuration: its certificate, then its
/// CA certificate when it has one.
pub open spec fn security_chain(s: SecuritySettings) -> Seq<Seq<u8>> {
    match s.ca_cert {
        Some(ca) => seq![s.cert, ca],
        None => seq![s.cert],
    }
}

/// Registering the certificate of one host in `certificates`: the certificates after,
/// or the error text.
pub open spec fn register_host(
    certificates: Map<Seq<char>, (Seq<Seq<u8>>, Seq<u8>)>,
    hostname: Seq<char>,
    s: SecuritySettings,
) -> Result<Map<Seq<char>, (Seq<Seq<u8>>, Seq<u8>)>, Seq<char>> {
    if !private_key_recognized(s.key) {
        Err("Failed to parse private key"@)
    } else if !ring_key_certifies(security_chain(s), s.key) {
        Err("Failed to create certified key"@)
    } else {
        match sni_add_result(hostname, security_chain(s)) {
            Ok(stored) => Ok(certificates.insert(stored, (security_chain(s), s.key))),
            Err(e) => Err(e),
        }
    }
}

/// The certificates of a list of virtual hosts, registered in order, or the error
/// text of the first host that cannot be registered. Hosts without security are
/// skipped.
pub open spec fn tls_certificates<H>(hosts: Seq<VirtualHost<H>>) -> Result<
    Map<Seq<char>, (Seq<Seq<u8>>, Seq<u8>)>,
    Seq<char>,
>
    decreases hosts.len(),
{
    if hosts.len() == 0 {
        Ok(no_certificates())
    } else {
        match tls_certificates(hosts.drop_last()) {
            Err(e) => Err(e),
            Ok(m) => match hosts.last().settings().security {
                None => Ok(m),
                Some(sec) => register_host(m, hosts.last().settings().hostname, sec@),
            },
        }
    }
}

/// With no secured host, no certificate is registered and nothing can fail.
pub proof fn law_no_security_no_certificates<H>(hosts: Seq<VirtualHost<H>>)
    requires
        forall|i: int| 0 <= i < hosts.len() ==> (#[trigger] hosts[i]).settings().security is None,
    ensures
        tls_certificates(hosts) == Ok::<Map<Seq<char>, (Seq<Seq<u8>>, Seq<u8>)>, Seq<char>>(
            no_certificates(),
        ),
    decreases hosts.len(),
{
    if hosts.len() > 0 {
        let rest = hosts.drop_last();
        assert forall|i: int| 0 <= i < rest.len() implies (#[trigger] rest[i]).settings().security is None by {
            assert(rest[i] == hosts[i]);
        }
        law_no_security_no_certificates(rest);
        assert(hosts.last() == hosts[hosts.len() - 1]);
    }
}

/// A TLS start-up error with the given text.
pub open spec fn is_tls_error<T>(res: Result<T, VetisError>, message: Seq<char>) -> bool {
    res matches Err(VetisError::Start(StartError::Tls(m))) && m@ == message
}

/// Makes TLS configurations for a server's virtual hosts.
pub struct TlsFactory {}

impl TlsFactory {
    /// Registers the certified key of one secured host in the resolver.
    fn add_host(
        resolver: &mut ResolvesServerCertUsingSni,
        provider: &RingProvider,
        hostname: &str,
        security: &SecurityConfig,
    ) -> (res: Result<(), VetisError>)
        ensures
            match register_host(sni_entries(*old(resolver)), hostname@, security@) {
                Ok(m) => res is Ok && sni_entries(*final(resolver)) == m,
                Err(e) => is_tls_error(res, e),
            },
    {
        let mut chain: Vec<Vec<u8>> = Vec::new();
        let cert = security.cert().clone();
        chain.push(cert);
        match security.ca_cert() {
            Some(ca) => {
                chain.push(ca.clone());
            },
            None => {},
        }
        proof {
            assert(byte_strings(chain@) =~= security_chain(security@));
        }
        let key_bytes = security.key().clone();
        let key = match private_key_der(key_bytes) {
            Some(k) => k,
            None => {
                return Err(
                    VetisError::Start(StartError::Tls("Failed to parse private key".to_owned())),
                );
            },
        };
        let certified = match certified_key(chain, key, provider) {
            Some(c) => c,
            None => {
                return Err(
                    VetisError::Start(
                        StartError::Tls("Failed to create certified key".to_owned()),
                    ),
                );
            },
        };
        match add_certified_key(resolver, hostname, certified) {
            Ok(()) => Ok(()),
            Err(e) => Err(VetisError::Start(StartError::Tls(e))),
        }
    }

    /// Creates the TLS configuration of a server: for every virtual host with a
    /// security configuration, in the order of the registry, its certificate (followed
    /// by its CA certificate, if any) and private key are registered for its hostname.
    /// The configuration speaks TLS 1.3 only, accepts early data of any size, and
    /// offers the ALPN protocols given.
    ///
    /// It fails with the TLS start-up error of the first host that cannot be
    /// registered (see [`register_host`]).
    pub fn create_tls_config<H>(virtual_hosts: &VirtualHosts<H>, alpn_protocols: Vec<Vec<u8>>) -> (res:
        Result<Option<ServerTls>, VetisError>)
        ensures
            match tls_certificates(virtual_hosts.host_list()) {
                Ok(m) => res matches Ok(Some(t)) && t.certificates() == m && t.alpn()
                    == byte_strings(alpn_protocols@) && t.max_early_data() == u32::MAX
                    && t.versions() == seq![TlsVersion::Tls13],
                Err(e) => is_tls_error(res, e),
            },
    {
        let provider = ring_provider();
        let mut resolver = sni_resolver();
        let hosts = virtual_hosts.hosts();
        let mut i: usize = 0;
        proof {
            assert(hosts@.take(0) =~= Seq::<VirtualHost<H>>::empty());
        }
        while i < hosts.len()
            invariant
                i <= hosts@.len(),
                hosts@ == virtual_hosts.host_list(),
                tls_certificates(hosts@.take(i as int)) == Ok::<
                    Map<Seq<char>, (Seq<Seq<u8>>, Seq<u8>)>,
                    Seq<char>,
                >(sni_entries(resolver)),
            decreases hosts@.len() - i,
        {
            let host = &hosts[i];
            proof {
                assert(hosts@.take(i + 1).drop_last() =~= hosts@.take(i as int));
                assert(hosts@.take(i + 1).last() == hosts@[i as int]);
            }
            match host.config().security() {
                Some(security) => {
                    match Self::add_host(&mut resolver, &provider, host.hostname(), security) {
                        Ok(()) => {},
                        Err(e) => {
                            proof {
                                lemma_error_persists(hosts@, i as int + 1);
                            }
                            return Err(e);
                        },
                    }
                },
                None => {},
            }
            i = i + 1;
        }
        proof {
            assert(hosts@.take(i as int) =~= hosts@);
        }
        let mut versions: Vec<TlsVersion> = Vec::new();
        versions.push(TlsVersion::Tls13);
        proof {
            assert(versions@ =~= seq![TlsVersion::Tls13]);
            assert(versions@.contains(TlsVersion::Tls13)) by {
                assert(versions@[0] == TlsVersion::Tls13);
            }
        }
        match tls_server_config(provider, resolver, versions, u32::MAX, alpn_protocols) {
            Ok(config) => Ok(Some(config)),
            Err(e) => Err(VetisError::Start(StartError::Tls(e))),
        }
    }
}

/// Once registration fails at some host, it fails with the same error for every
/// longer prefix of the list.
proof fn lemma_error_persists<H>(hosts: Seq<VirtualHost<H>>, n: int)
    requires
        0 <= n <= hosts.len(),
        tls_certificates(hosts.take(n)) is Err,
    ensures
        tls_certificates(hosts) == tls_certificates(hosts.take(n)),
    decreases hosts.len() - n,
{
    if n < hosts.len() {
        assert(hosts.take(n + 1).drop_last() =~= hosts.take(n));
        lemma_error_persists(hosts, n + 1);
    } else {
        assert(hosts.take(n) =~= hosts);
    }
}


/// Registering a secured host stores, under the name the resolver gives its hostname,
/// the host's certificate followed by its CA certificate when it has one (the CA
/// certificate is the second and last of the chain), together with its private key;
/// the chain handed to key matching and to the name check is that same chain.
pub proof fn law_registered_chain(
    certificates: Map<Seq<char>, (Seq<Seq<u8>>, Seq<u8>)>,
    hostname: Seq<char>,
    s: SecuritySettings,
)
    ensures
        ({
            let chain = match s.ca_cert {
                Some(a) => seq![s.cert].push(a),
                None => seq![s.cert],
            };
            &&& s.ca_cert is Some ==> chain.len() == 2 && chain[0] == s.cert && chain[1]
                == s.ca_cert->Some_0
            &&& s.ca_cert is None ==> chain.len() == 1 && chain[0] == s.cert
            &&& register_host(certificates, hostname, s) is Ok <==> (private_key_recognized(s.key)
                && ring_key_certifies(chain, s.key) && sni_add_result(hostname, chain) is Ok)
            &&& register_host(certificates, hostname, s) is Ok ==> register_host(
                certificates,
                hostname,
                s,
            ) == Ok::<Map<Seq<char>, (Seq<Seq<u8>>, Seq<u8>)>, Seq<char>>(
                certificates.insert(sni_add_result(hostname, chain)->Ok_0, (chain, s.key)),
            )
        }),
{
    match s.ca_cert {
        Some(a) => {
            assert(seq![s.cert].push(a) =~= seq![s.cert, a]);
        },
        None => {},
    }
}

} // verus!
