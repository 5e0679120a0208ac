use vetis::config::server::virtual_host::path::auth::BasicAuthConfig;
use vetis::config::server::virtual_host::path::static_files::StaticPathConfig;
use vetis::config::server::virtual_host::{SecurityConfig, VirtualHostConfig};
use vetis::errors::{FileError, StartError, VetisError, VirtualHostError};
use vetis::server::tls::TlsFactory;
use vetis::server::virtual_host::path::auth::basic_auth::BasicAuth;
use vetis::server::virtual_host::path::auth::AuthType;
use vetis::server::virtual_host::path::static_files::{
    file_answer, metadata_headers, range_plan, FileAnswer, RangePlan, StaticPath, TargetKind,
};
use vetis::server::virtual_host::registry::VirtualHosts;
use vetis::server::virtual_host::VirtualHost;

fn static_path(index: bool) -> StaticPath {
    let mut builder = StaticPathConfig::builder()
        .uri("/static")
        .extensions("\\.(html|css)$")
        .directory("/srv/www");
    if index {
        builder = builder.index_files(vec!["index.html".to_string(), "index.htm".to_string()]);
    }
    StaticPath::new(builder.build().unwrap())
}

fn not_found() -> VetisError {
    VetisError::VirtualHost(VirtualHostError::File(FileError::NotFound))
}

fn invalid_range() -> VetisError {
    VetisError::VirtualHost(VirtualHostError::File(FileError::InvalidRange))
}

#[test]
fn file_path_joins_directory() {
    let path = static_path(false);
    assert_eq!(path.file_path("/css/site.css"), "/srv/www/css/site.css");
    assert_eq!(path.file_path("site.css"), "/srv/www/site.css");
}

#[test]
fn resolve_without_index_files() {
    let path = static_path(false);
    let t = path.resolve("/a.html", true, false, false).unwrap();
    assert_eq!((t.kind, t.path.as_str()), (TargetKind::File, "/srv/www/a.html"));
    let t = path.resolve("/a.html", true, false, true).unwrap();
    assert_eq!(t.kind, TargetKind::Metadata);
    assert_eq!(path.resolve("/a.html", false, false, false).err(), Some(not_found()));
}

#[test]
fn resolve_with_index_files() {
    let path = static_path(true);
    let t = path.resolve("/docs", false, false, false).unwrap();
    assert_eq!((t.kind, t.path.as_str()), (TargetKind::Index, "/srv/www"));
    let t = path.resolve("/missing.html", false, false, false).unwrap();
    assert_eq!((t.kind, t.path.as_str()), (TargetKind::File, "/srv/www/missing.html"));
    let t = path.resolve("/docs", true, true, false).unwrap();
    assert_eq!((t.kind, t.path.as_str()), (TargetKind::Index, "/srv/www/docs"));
}

#[test]
fn index_choice() {
    let path = static_path(true);
    assert_eq!(
        path.index_candidates("/srv/www/docs"),
        vec!["/srv/www/docs/index.html".to_string(), "/srv/www/docs/index.htm".to_string()]
    );
    assert_eq!(
        path.pick_index("/srv/www/docs", &vec![false, true]),
        Ok("/srv/www/docs/index.htm".to_string())
    );
    assert_eq!(path.pick_index("/srv/www/docs", &vec![false, false]).err(), Some(not_found()));
    assert_eq!(static_path(false).pick_index("/srv", &vec![true]).err(), Some(not_found()));
}

#[test]
fn range_requests() {
    assert_eq!(range_plan(None, 100), Ok(RangePlan::Full));
    assert_eq!(range_plan(Some("bytes=10-20"), 100), Ok(RangePlan::Partial(10)));
    assert_eq!(range_plan(Some("bytes=20-10"), 100), Ok(RangePlan::NotSatisfiable));
    assert_eq!(range_plan(Some("bytes=100-150"), 100), Ok(RangePlan::NotSatisfiable));
    assert_eq!(range_plan(Some("bytes=10-100"), 100), Ok(RangePlan::Full));
    assert_eq!(range_plan(Some("bytes=10-10"), 100), Ok(RangePlan::Full));
    assert_eq!(range_plan(Some("items=1-2"), 100).err(), Some(invalid_range()));
    assert_eq!(range_plan(Some("bytes"), 100).err(), Some(invalid_range()));
    assert_eq!(range_plan(Some("bytes=5"), 100).err(), Some(invalid_range()));
    assert_eq!(range_plan(Some("bytes=5-"), 100).err(), Some(invalid_range()));
}

#[test]
fn metadata_of_files() {
    let h = metadata_headers(Some("a.html"), 12, "Thu, 01 Jan 1970 00:00:00 +0000").unwrap();
    assert_eq!(h.content_length, 12);
    assert_eq!(h.content_type.as_deref(), Some("text/html"));
    let h = metadata_headers(Some("README"), 3, "date").unwrap();
    assert_eq!(h.content_type, None);
    assert_eq!(
        metadata_headers(None, 3, "date").err(),
        Some(VetisError::VirtualHost(VirtualHostError::File(FileError::InvalidMetadata)))
    );
    assert_eq!(
        metadata_headers(Some("a.html"), 3, "bad\u{7f}").err(),
        Some(VetisError::VirtualHost(VirtualHostError::File(FileError::InvalidMetadata)))
    );
}

#[test]
fn static_path_authorization() {
    let config = StaticPathConfig::builder()
        .uri("/private")
        .auth(AuthType::Basic(BasicAuth::new(
            BasicAuthConfig::builder()
                .users(vec![("u".to_string(), bcrypt::hash("p", 4).unwrap())])
                .build()
                .unwrap(),
        )))
        .build()
        .unwrap();
    let path = StaticPath::new(config);
    assert_eq!(
        path.authorize(None),
        Err(VetisError::VirtualHost(VirtualHostError::Auth("Unauthorized".to_string())))
    );
    assert_eq!(path.authorize(Some(b"Basic dTpw")), Ok(()));
    assert_eq!(static_path(false).authorize(None), Ok(()));
}

#[test]
fn extension_pattern() {
    let path = static_path(false);
    assert_eq!(path.extension_matches("a.html"), Some(true));
    assert_eq!(path.extension_matches("a.png"), Some(false));
    let broken = StaticPath::new(
        StaticPathConfig::builder().extensions("(").build().unwrap(),
    );
    assert_eq!(broken.extension_matches("a.html"), None);
}

fn secured_hosts(key: Vec<u8>) -> VirtualHosts<u32> {
    let security = SecurityConfig::builder()
        .cert_from_bytes(vec![0x30, 0x03, 0x02, 0x01, 0x00])
        .key_from_bytes(key)
        .build()
        .unwrap();
    let config = VirtualHostConfig::builder()
        .hostname("localhost")
        .port(8443)
        .root_directory("tests")
        .security(security)
        .build_for_root(true)
        .unwrap();
    let mut hosts = VirtualHosts::new();
    hosts.add(VirtualHost::new(config));
    hosts
}

#[test]
fn tls_config_invalid_private_key() {
    let result = TlsFactory::create_tls_config(&secured_hosts(vec![0x01, 0x02, 0x03]), vec![]);
    match result {
        Err(VetisError::Start(StartError::Tls(msg))) => {
            assert!(msg.contains("Failed to parse private key"))
        }
        _ => panic!("Expected Tls error"),
    }
}

#[test]
fn tls_config_without_security() {
    let config = VirtualHostConfig::builder()
        .root_directory("tests")
        .build_for_root(true)
        .unwrap();
    let mut hosts: VirtualHosts<u32> = VirtualHosts::new();
    hosts.add(VirtualHost::new(config));
    let result = TlsFactory::create_tls_config(&hosts, vec![b"h2".to_vec()]);
    let config = result.unwrap().unwrap();
    assert_eq!(config.alpn_protocols(), &vec![b"h2".to_vec()]);
    assert_eq!(config.max_early_data_size(), u32::MAX);
    let config = config.into_config();
    assert_eq!(config.alpn_protocols, vec![b"h2".to_vec()]);
    assert_eq!(config.max_early_data_size, u32::MAX);
}

#[test]
fn doubled_slash_target_leaves_directory() {
    // A target whose rest is absolute replaces the directory, as `PathBuf::join` does.
    let path = static_path(false);
    assert_eq!(path.file_path("//etc/passwd"), "/etc/passwd");
}

#[test]
fn extension_pattern_limits_served_files() {
    let path = static_path(false);
    assert_eq!(path.resolve("/secret.txt", true, false, false).err(), Some(not_found()));
    assert_eq!(path.resolve("/secret.txt", true, false, true).err(), Some(not_found()));
    let indexed = static_path(true);
    assert_eq!(indexed.resolve("/secret.txt", true, false, false).err(), Some(not_found()));
    let t = indexed.resolve("/site.css", true, false, false).unwrap();
    assert_eq!((t.kind, t.path.as_str()), (TargetKind::File, "/srv/www/site.css"));
}

#[test]
fn file_answers() {
    let a = file_answer(RangePlan::NotSatisfiable, 10, false);
    assert_eq!((a, a.status()), (FileAnswer::NotSatisfiable, 416));
    let a = file_answer(RangePlan::Partial(3), 10, true);
    assert_eq!((a, a.status()), (FileAnswer::PartialFrom(3), 206));
    let a = file_answer(RangePlan::Partial(3), 10, false);
    assert_eq!((a, a.status()), (FileAnswer::Whole(10), 200));
    let a = file_answer(RangePlan::Full, 10, false);
    assert_eq!((a, a.status()), (FileAnswer::Whole(10), 200));
}

#[test]
fn tls_config_empty_alpn() {
    let config = VirtualHostConfig::builder()
        .root_directory("tests")
        .build_for_root(true)
        .unwrap();
    let mut hosts: VirtualHosts<u32> = VirtualHosts::new();
    hosts.add(VirtualHost::new(config));
    let config = TlsFactory::create_tls_config(&hosts, vec![]).unwrap().unwrap();
    assert!(config.alpn_protocols().is_empty());
}

#[test]
fn tls_config_unmatched_certificate() {
    // The key is read, but the certificate bytes are not a certificate for it.
    let key = vec![0x30, 0x03, 0x02, 0x01, 0x00];
    match TlsFactory::create_tls_config(&secured_hosts(key), vec![]) {
        Err(VetisError::Start(StartError::Tls(msg))) => assert!(!msg.is_empty()),
        _ => panic!("Expected Tls error"),
    }
}
