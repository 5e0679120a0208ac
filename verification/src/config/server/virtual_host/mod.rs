//! Virtual host configuration: hostname, port, document root, TLS material and paths.

use std::collections::HashMap;

use vstd::prelude::*;
use vstd::string::StringExecFns;

use crate::config::server::virtual_host::path::interface::InterfacePathConfig;
use crate::config::server::virtual_host::path::proxy::ProxyPathConfig;
use crate::config::server::virtual_host::path::static_files::StaticPathConfig;
use crate::errors::{ConfigError, VetisError};

pub mod path;

verus! {

/// Whether a path names something on disk.
///
/// Calls `std::path::Path::exists`. Nothing is promised of the result: it depends on
/// the file system at the time of the call.
#[verifier::external_body]
pub(crate) fn path_exists(path: &str) -> bool {
    std::path::Path::new(path).exists()
}

/// The default headers as text.
pub open spec fn header_pairs(headers: Seq<(String, String)>) -> Seq<(Seq<char>, Seq<char>)> {
    headers.map_values(|h: (String, String)| (h.0@, h.1@))
}

/// The optional default headers as text.
pub open spec fn opt_header_pairs(headers: Option<Vec<(String, String)>>) -> Option<
    Seq<(Seq<char>, Seq<char>)>,
> {
    match headers {
        Some(v) => Some(header_pairs(v@)),
        None => None,
    }
}

/// What a virtual host configuration holds.
pub struct VirtualHostSettings {
    pub hostname: Seq<char>,
    pub port: u16,
    pub root_directory: Seq<char>,
    pub default_headers: Option<Seq<(Seq<char>, Seq<char>)>>,
    pub security: Option<SecurityConfig>,
    pub status_pages: Option<HashMap<u16, String>>,
    pub enable_logging: bool,
    pub static_paths: Option<Vec<StaticPathConfig>>,
    pub proxy_paths: Option<Vec<ProxyPathConfig>>,
    pub interface_paths: Option<Vec<InterfacePathConfig>>,
}

/// Builder for creating `VirtualHostConfig` instances.
pub struct VirtualHostConfigBuilder {
    hostname: String,
    port: u16,
    root_directory: String,
    default_headers: Option<Vec<(String, String)>>,
    security: Option<SecurityConfig>,
    status_pages: Option<HashMap<u16, String>>,
    enable_logging: bool,
    static_paths: Option<Vec<StaticPathConfig>>,
    proxy_paths: Option<Vec<ProxyPathConfig>>,
    interface_paths: Option<Vec<InterfacePathConfig>>,
}

impl View for VirtualHostConfigBuilder {
    type V = VirtualHostSettings;

    closed spec fn view(&self) -> VirtualHostSettings {
        VirtualHostSettings {
            hostname: self.hostname@,
            port: self.port,
            root_directory: self.root_directory@,
            default_headers: opt_header_pairs(self.default_headers),
            security: self.security,
            status_pages: self.status_pages,
            enable_logging: self.enable_logging,
            static_paths: self.static_paths,
            proxy_paths: self.proxy_paths,
            interface_paths: self.interface_paths,
        }
    }
}

/// The message of a virtual host whose root directory is missing on disk.
pub open spec fn missing_root_message(root: Seq<char>) -> Seq<char> {
    "root_directory does not exist: "@ + root
}

impl VirtualHostConfigBuilder {
    /// Sets the hostname used to match incoming requests to this virtual host.
    pub fn hostname(self, hostname: &str) -> (res: Self)
        ensures
            res@ == (VirtualHostSettings { hostname: hostname@, ..self@ }),
    {
        let mut b = self;
        b.hostname = hostname.to_owned();
        b
    }

    /// Sets the port; it should match one of the server listeners.
    pub fn port(self, port: u16) -> (res: Self)
        ensures
            res@ == (VirtualHostSettings { port: port, ..self@ }),
    {
        let mut b = self;
        b.port = port;
        b
    }

    /// Sets the root directory, the base of all static file paths.
    pub fn root_directory(self, root_directory: &str) -> (res: Self)
        ensures
            res@ == (VirtualHostSettings { root_directory: root_directory@, ..self@ }),
    {
        let mut b = self;
        b.root_directory = root_directory.to_owned();
        b
    }

    /// Adds a default header, added to every response of this virtual host.
    pub fn header(self, key: &str, value: &str) -> (res: Self)
        ensures
            res@ == (VirtualHostSettings {
                default_headers: Some(
                    match self@.default_headers {
                        Some(h) => h,
                        None => Seq::empty(),
                    }.push((key@, value@)),
                ),
                ..self@
            }),
    {
        let mut b = self;
        let pair = (key.to_owned(), value.to_owned());
        match b.default_headers {
            None => {
                let mut v = Vec::new();
                v.push(pair);
                proof {
                    assert(header_pairs(v@) =~= Seq::<(Seq<char>, Seq<char>)>::empty().push(
                        (key@, value@),
                    ));
                }
                b.default_headers = Some(v);
            },
            Some(headers) => {
                let mut v = headers;
                let ghost before = v@;
                v.push(pair);
                proof {
                    assert(header_pairs(v@) =~= header_pairs(before).push((key@, value@)));
                }
                b.default_headers = Some(v);
            },
        }
        b
    }

    /// Sets the security configuration; the virtual host then uses TLS.
    pub fn security(self, security: SecurityConfig) -> (res: Self)
        ensures
            res@ == (VirtualHostSettings { security: Some(security), ..self@ }),
    {
        let mut b = self;
        b.security = Some(security);
        b
    }

    /// Sets the custom pages served for status codes (code to file path).
    pub fn status_pages(self, status_pages: HashMap<u16, String>) -> (res: Self)
        ensures
            res@ == (VirtualHostSettings { status_pages: Some(status_pages), ..self@ }),
    {
        let mut b = self;
        b.status_pages = Some(status_pages);
        b
    }

    /// Enables or disables request logging for this virtual host.
    pub fn enable_logging(self, logging: bool) -> (res: Self)
        ensures
            res@ == (VirtualHostSettings { enable_logging: logging, ..self@ }),
    {
        let mut b = self;
        b.enable_logging = logging;
        b
    }

    /// Sets the static file paths of the virtual host.
    pub fn static_paths(self, static_paths: Vec<StaticPathConfig>) -> (res: Self)
        ensures
            res@ == (VirtualHostSettings { static_paths: Some(static_paths), ..self@ }),
    {
        let mut b = self;
        b.static_paths = Some(static_paths);
        b
    }

    /// Sets the reverse proxy paths of the virtual host.
    pub fn proxy_paths(self, proxy_paths: Vec<ProxyPathConfig>) -> (res: Self)
        ensures
            res@ == (VirtualHostSettings { proxy_paths: Some(proxy_paths), ..self@ }),
    {
        let mut b = self;
        b.proxy_paths = Some(proxy_paths);
        b
    }

    /// Sets the language interface paths of the virtual host.
    pub fn interface_paths(self, interface_paths: Vec<InterfacePathConfig>) -> (res: Self)
        ensures
            res@ == (VirtualHostSettings { interface_paths: Some(interface_paths), ..self@ }),
    {
        let mut b = self;
        b.interface_paths = Some(interface_paths);
        b
    }

    /// Creates the `VirtualHostConfig`, given whether the root directory exists on disk.
    ///
    /// The hostname and the root directory must be set, and the root directory must exist.
    pub fn build_for_root(self, root_exists: bool) -> (res: Result<VirtualHostConfig, VetisError>)
        ensures
            self@.hostname.len() == 0 ==> (res matches Err(
                VetisError::Config(ConfigError::VirtualHost(m)),
            ) && m@ == "hostname is not provided"@),
            self@.hostname.len() != 0 && self@.root_directory.len() == 0 ==> (res matches Err(
                VetisError::Config(ConfigError::VirtualHost(m)),
            ) && m@ == "root_directory is not provided"@),
            self@.hostname.len() != 0 && self@.root_directory.len() != 0 && !root_exists ==> (
            res matches Err(VetisError::Config(ConfigError::VirtualHost(m))) && m@
                == missing_root_message(self@.root_directory)),
            self@.hostname.len() != 0 && self@.root_directory.len() != 0 && root_exists ==> (
            res matches Ok(c) && c@ == self@),
    {
        if self.hostname.as_str().is_empty() {
            return Err(
                VetisError::Config(ConfigError::VirtualHost("hostname is not provided".to_owned())),
            );
        }
        if self.root_directory.as_str().is_empty() {
            return Err(
                VetisError::Config(
                    ConfigError::VirtualHost("root_directory is not provided".to_owned()),
                ),
            );
        }
        if !root_exists {
            let message = "root_directory does not exist: ".to_owned().concat(
                self.root_directory.as_str(),
            );
            return Err(VetisError::Config(ConfigError::VirtualHost(message)));
        }
        Ok(
            VirtualHostConfig {
                hostname: self.hostname,
                port: self.port,
                root_directory: self.root_directory,
                default_headers: self.default_headers,
                security: self.security,
                status_pages: self.status_pages,
                enable_logging: self.enable_logging,
                static_paths: self.static_paths,
                proxy_paths: self.proxy_paths,
                interface_paths: self.interface_paths,
            },
        )
    }

    /// Creates the `VirtualHostConfig`, checking on disk that the root directory exists.
    ///
    /// The hostname and root directory are checked as `build_for_root` does; when both are
    /// set, the result is either the missing-root error or the configuration.
    pub fn build(self) -> (res: Result<VirtualHostConfig, VetisError>)
        ensures
            self@.hostname.len() == 0 ==> (res matches Err(
                VetisError::Config(ConfigError::VirtualHost(m)),
            ) && m@ == "hostname is not provided"@),
            self@.hostname.len() != 0 && self@.root_directory.len() == 0 ==> (res matches Err(
                VetisError::Config(ConfigError::VirtualHost(m)),
            ) && m@ == "root_directory is not provided"@),
            self@.hostname.len() != 0 && self@.root_directory.len() != 0 ==> ((res matches Err(
                VetisError::Config(ConfigError::VirtualHost(m)),
            ) && m@ == missing_root_message(self@.root_directory)) || (res matches Ok(c) && c@
                == self@)),
    {
        let exists = if self.root_directory.as_str().is_empty() {
            false
        } else {
            path_exists(self.root_directory.as_str())
        };
        self.build_for_root(exists)
    }
}

/// Configuration for a virtual host.
#[derive(Clone)]
pub struct VirtualHostConfig {
    hostname: String,
    port: u16,
    root_directory: String,
    default_headers: Option<Vec<(String, String)>>,
    security: Option<SecurityConfig>,
    status_pages: Option<HashMap<u16, String>>,
    enable_logging: bool,
    static_paths: Option<Vec<StaticPathConfig>>,
    proxy_paths: Option<Vec<ProxyPathConfig>>,
    interface_paths: Option<Vec<InterfacePathConfig>>,
}

impl View for VirtualHostConfig {
    type V = VirtualHostSettings;

    closed spec fn view(&self) -> VirtualHostSettings {
        VirtualHostSettings {
            hostname: self.hostname@,
            port: self.port,
            root_directory: self.root_directory@,
            default_headers: opt_header_pairs(self.default_headers),
            security: self.security,
            status_pages: self.status_pages,
            enable_logging: self.enable_logging,
            static_paths: self.static_paths,
            proxy_paths: self.proxy_paths,
            interface_paths: self.interface_paths,
        }
    }
}

impl VirtualHostConfig {
    /// Creates a builder: hostname "localhost", port 80, root "/var/vetis/www",
    /// logging on, nothing else set.
    pub fn builder() -> (res: VirtualHostConfigBuilder)
        ensures
            res@ == (VirtualHostSettings {
                hostname: "localhost"@,
                port: 80,
                root_directory: "/var/vetis/www"@,
                default_headers: None,
                security: None,
                status_pages: None,
                enable_logging: true,
                static_paths: None,
                proxy_paths: None,
                interface_paths: None,
            }),
    {
        VirtualHostConfigBuilder {
            hostname: "localhost".to_owned(),
            port: 80,
            root_directory: "/var/vetis/www".to_owned(),
            default_headers: None,
            security: None,
            status_pages: None,
            enable_logging: true,
            static_paths: None,
            proxy_paths: None,
            interface_paths: None,
        }
    }

    /// Returns the hostname.
    pub fn hostname(&self) -> (res: &str)
        ensures
            res@ == self@.hostname,
    {
        self.hostname.as_str()
    }

    /// Returns the port.
    pub fn port(&self) -> (res: u16)
        ensures
            res == self@.port,
    {
        self.port
    }

    /// Returns the root directory.
    pub fn root_directory(&self) -> (res: &str)
        ensures
            res@ == self@.root_directory,
    {
        self.root_directory.as_str()
    }

    /// Returns the default headers.
    pub fn default_headers(&self) -> (res: &Option<Vec<(String, String)>>)
        ensures
            opt_header_pairs(*res) == self@.default_headers,
    {
        &self.default_headers
    }

    /// Returns the security configuration if present.
    pub fn security(&self) -> (res: &Option<SecurityConfig>)
        ensures
            *res == self@.security,
    {
        &self.security
    }

    /// Returns the status pages.
    pub fn status_pages(&self) -> (res: &Option<HashMap<u16, String>>)
        ensures
            *res == self@.status_pages,
    {
        &self.status_pages
    }

    /// Returns the logging setting.
    pub fn enable_logging(&self) -> (res: bool)
        ensures
            res == self@.enable_logging,
    {
        self.enable_logging
    }

    /// Returns the static paths.
    pub fn static_paths(&self) -> (res: &Option<Vec<StaticPathConfig>>)
        ensures
            *res == self@.static_paths,
    {
        &self.static_paths
    }

    /// Returns the proxy paths.
    pub fn proxy_paths(&self) -> (res: &Option<Vec<ProxyPathConfig>>)
        ensures
            *res == self@.proxy_paths,
    {
        &self.proxy_paths
    }

    /// Returns the interface paths.
    pub fn interface_paths(&self) -> (res: &Option<Vec<InterfacePathConfig>>)
        ensures
            *res == self@.interface_paths,
    {
        &self.interface_paths
    }
}

/// Optional bytes as a sequence.
pub open spec fn opt_bytes(bytes: Option<Vec<u8>>) -> Option<Seq<u8>> {
    match bytes {
        Some(b) => Some(b@),
        None => None,
    }
}

/// What a security configuration holds.
pub struct SecuritySettings {
    pub cert: Seq<u8>,
    pub key: Seq<u8>,
    pub ca_cert: Option<Seq<u8>>,
    pub client_auth: bool,
}

/// Builder for creating `SecurityConfig` instances (DER certificates and key).
#[derive(Clone)]
pub struct SecurityConfigBuilder {
    cert: Vec<u8>,
    key: Vec<u8>,
    ca_cert: Option<Vec<u8>>,
    client_auth: bool,
}

impl View for SecurityConfigBuilder {
    type V = SecuritySettings;

    closed spec fn view(&self) -> SecuritySettings {
        SecuritySettings {
            cert: self.cert@,
            key: self.key@,
            ca_cert: opt_bytes(self.ca_cert),
            client_auth: self.client_auth,
        }
    }
}

impl SecurityConfigBuilder {
    /// Sets the server certificate (DER); same as `cert_from_bytes`.
    pub fn cert(self, cert: Vec<u8>) -> (res: Self)
        ensures
            res@ == (SecuritySettings { cert: cert@, ..self@ }),
    {
        self.cert_from_bytes(cert)
    }

    /// Sets the server certificate from bytes (DER).
    pub fn cert_from_bytes(self, cert: Vec<u8>) -> (res: Self)
        ensures
            res@ == (SecuritySettings { cert: cert@, ..self@ }),
    {
        let mut b = self;
        b.cert = cert;
        b
    }

    /// Sets the private key (DER); same as `key_from_bytes`.
    pub fn key(self, key: Vec<u8>) -> (res: Self)
        ensures
            res@ == (SecuritySettings { key: key@, ..self@ }),
    {
        self.key_from_bytes(key)
    }

    /// Sets the private key from bytes (DER).
    pub fn key_from_bytes(self, key: Vec<u8>) -> (res: Self)
        ensures
            res@ == (SecuritySettings { key: key@, ..self@ }),
    {
        let mut b = self;
        b.key = key;
        b
    }

    /// Sets the CA certificate (DER); same as `ca_cert_from_bytes`.
    pub fn ca_cert(self, ca_cert: Vec<u8>) -> (res: Self)
        ensures
            res@ == (SecuritySettings { ca_cert: Some(ca_cert@), ..self@ }),
    {
        self.ca_cert_from_bytes(ca_cert)
    }

    /// Sets the CA certificate from bytes (DER), used for client authentication.
    pub fn ca_cert_from_bytes(self, ca_cert: Vec<u8>) -> (res: Self)
        ensures
            res@ == (SecuritySettings { ca_cert: Some(ca_cert@), ..self@ }),
    {
        let mut b = self;
        b.ca_cert = Some(ca_cert);
        b
    }

    /// Sets whether clients must present a certificate signed by the CA.
    pub fn client_auth(self, client_auth: bool) -> (res: Self)
        ensures
            res@ == (SecuritySettings { client_auth: client_auth, ..self@ }),
    {
        let mut b = self;
        b.client_auth = client_auth;
        b
    }

    /// Creates the `SecurityConfig`; certificate and key must not be empty.
    pub fn build(self) -> (res: Result<SecurityConfig, VetisError>)
        ensures
            self@.cert.len() == 0 ==> (res matches Err(
                VetisError::Config(ConfigError::Security(m)),
            ) && m@ == "Certificate is empty"@),
            self@.cert.len() != 0 && self@.key.len() == 0 ==> (res matches Err(
                VetisError::Config(ConfigError::Security(m)),
            ) && m@ == "Key is empty"@),
            self@.cert.len() != 0 && self@.key.len() != 0 ==> (res matches Ok(c) && c@
                == self@),
    {
        if self.cert.len() == 0 {
            return Err(VetisError::Config(ConfigError::Security("Certificate is empty".to_owned())));
        }
        if self.key.len() == 0 {
            return Err(VetisError::Config(ConfigError::Security("Key is empty".to_owned())));
        }
        Ok(
            SecurityConfig {
                cert: self.cert,
                key: self.key,
                ca_cert: self.ca_cert,
                client_auth: self.client_auth,
            },
        )
    }
}

/// Security configuration for TLS: certificate, key, CA certificate, client authentication.
#[derive(Clone)]
pub struct SecurityConfig {
    cert: Vec<u8>,
    key: Vec<u8>,
    ca_cert: Option<Vec<u8>>,
    client_auth: bool,
}

impl View for SecurityConfig {
    type V = SecuritySettings;

    closed spec fn view(&self) -> SecuritySettings {
        SecuritySettings {
            cert: self.cert@,
            key: self.key@,
            ca_cert: opt_bytes(self.ca_cert),
            client_auth: self.client_auth,
        }
    }
}

impl SecurityConfig {
    /// Creates a builder with empty certificate and key, no CA certificate, and no
    /// client authentication.
    pub fn builder() -> (res: SecurityConfigBuilder)
        ensures
            res@ == (SecuritySettings {
                cert: Seq::empty(),
                key: Seq::empty(),
                ca_cert: None,
                client_auth: false,
            }),
    {
        SecurityConfigBuilder { cert: Vec::new(), key: Vec::new(), ca_cert: None, client_auth: false }
    }

    /// Returns the server certificate bytes.
    pub fn cert(&self) -> (res: &Vec<u8>)
        ensures
            res@ == self@.cert,
    {
        &self.cert
    }

    /// Returns the private key bytes.
    pub fn key(&self) -> (res: &Vec<u8>)
        ensures
            res@ == self@.key,
    {
        &self.key
    }

    /// Returns the CA certificate bytes if present.
    pub fn ca_cert(&self) -> (res: &Option<Vec<u8>>)
        ensures
            opt_bytes(*res) == self@.ca_cert,
    {
        &self.ca_cert
    }

    /// Returns whether client authentication is enabled.
    pub fn client_auth(&self) -> (res: bool)
        ensures
            res == self@.client_auth,
    {
        self.client_auth
    }
}

/// Security settings as they stand in a configuration file: paths of the files to read.
#[derive(Clone)]
pub struct SecurityConfigFromFile {
    cert_from_file: String,
    key_from_file: String,
    ca_cert_from_file: Option<String>,
    client_auth: Option<bool>,
}

/// What a file-based security configuration holds.
pub struct SecurityFileSettings {
    pub cert_from_file: Seq<char>,
    pub key_from_file: Seq<char>,
    pub ca_cert_from_file: Option<Seq<char>>,
    pub client_auth: Option<bool>,
}

impl View for SecurityConfigFromFile {
    type V = SecurityFileSettings;

    closed spec fn view(&self) -> SecurityFileSettings {
        SecurityFileSettings {
            cert_from_file: self.cert_from_file@,
            key_from_file: self.key_from_file@,
            ca_cert_from_file: match self.ca_cert_from_file {
                Some(p) => Some(p@),
                None => None,
            },
            client_auth: self.client_auth,
        }
    }
}

/// The bytes that a file read gave, or nothing when the read failed.
pub open spec fn read_or_empty(read: Option<Vec<u8>>) -> Seq<u8> {
    match read {
        Some(b) => b@,
        None => Seq::empty(),
    }
}

impl SecurityConfigFromFile {
    /// Creates the file-based settings.
    pub fn new(
        cert_from_file: String,
        key_from_file: String,
        ca_cert_from_file: Option<String>,
        client_auth: Option<bool>,
    ) -> (res: Self)
        ensures
            res@.cert_from_file == cert_from_file@,
            res@.key_from_file == key_from_file@,
            res@.ca_cert_from_file == (match ca_cert_from_file {
                Some(p) => Some(p@),
                None => None::<Seq<char>>,
            }),
            res@.client_auth == client_auth,
    {
        SecurityConfigFromFile { cert_from_file, key_from_file, ca_cert_from_file, client_auth }
    }

    /// Returns the path of the certificate file.
    pub fn cert_from_file(&self) -> (res: &str)
        ensures
            res@ == self@.cert_from_file,
    {
        self.cert_from_file.as_str()
    }

    /// Returns the path of the key file.
    pub fn key_from_file(&self) -> (res: &str)
        ensures
            res@ == self@.key_from_file,
    {
        self.key_from_file.as_str()
    }

    /// Returns the path of the CA certificate file, if any.
    pub fn ca_cert_from_file(&self) -> (res: Option<&str>)
        ensures
            match res {
                Some(p) => self@.ca_cert_from_file == Some(p@),
                None => self@.ca_cert_from_file.is_none(),
            },
    {
        match &self.ca_cert_from_file {
            Some(p) => Some(p.as_str()),
            None => None,
        }
    }

    /// Returns the client authentication setting, if any.
    pub fn client_auth(&self) -> (res: Option<bool>)
        ensures
            res == self@.client_auth,
    {
        self.client_auth
    }

    /// Creates the `SecurityConfig` from what reading the three files gave.
    ///
    /// A failed read (`None`) leaves the value unset, as reading each file does in
    /// the builder; the CA certificate is used only when its path is given. The
    /// result is then validated as `SecurityConfigBuilder::build` does.
    pub fn load(self, cert: Option<Vec<u8>>, key: Option<Vec<u8>>, ca_cert: Option<Vec<u8>>) -> (res:
        Result<SecurityConfig, VetisError>)
        ensures
            read_or_empty(cert).len() == 0 ==> (res matches Err(
                VetisError::Config(ConfigError::Security(m)),
            ) && m@ == "Certificate is empty"@),
            read_or_empty(cert).len() != 0 && read_or_empty(key).len() == 0 ==> (res matches Err(
                VetisError::Config(ConfigError::Security(m)),
            ) && m@ == "Key is empty"@),
            read_or_empty(cert).len() != 0 && read_or_empty(key).len() != 0 ==> (res matches Ok(
                c,
            ) && c@ == (SecuritySettings {
                cert: read_or_empty(cert),
                key: read_or_empty(key),
                ca_cert: if self@.ca_cert_from_file.is_some() {
                    opt_bytes(ca_cert)
                } else {
                    None
                },
                client_auth: match self@.client_auth {
                    Some(v) => v,
                    None => false,
                },
            })),
    {
        let mut builder = SecurityConfig::builder();
        if let Some(bytes) = cert {
            builder = builder.cert_from_bytes(bytes);
        }
        if let Some(bytes) = key {
            builder = builder.key_from_bytes(bytes);
        }
        if self.ca_cert_from_file.is_some() {
            if let Some(bytes) = ca_cert {
                builder = builder.ca_cert_from_bytes(bytes);
            }
        }
        if let Some(client_auth) = self.client_auth {
            builder = builder.client_auth(client_auth);
        }
        builder.build()
    }
}

} // verus!
