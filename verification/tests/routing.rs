use vetis::config::server::virtual_host::path::auth::BasicAuthConfig;
use vetis::config::server::virtual_host::path::proxy::ProxyPathConfig;
use vetis::config::server::virtual_host::path::static_files::StaticPathConfig;
use vetis::config::server::virtual_host::VirtualHostConfig;
use vetis::config::server::{ListenerConfig, ServerConfig};
use vetis::errors::{HandlerError, VetisError, VirtualHostError};
use vetis::server::virtual_host::path::{HandlerPath, HostPath};
use vetis::server::virtual_host::registry::VirtualHosts;
use vetis::server::virtual_host::VirtualHost;
use vetis::Vetis;

fn host_config(hostname: &str, port: u16) -> VirtualHostConfig {
    VirtualHostConfig::builder()
        .hostname(hostname)
        .port(port)
        .root_directory("tests")
        .build_for_root(true)
        .unwrap()
}

fn handler_path(uri: &str, tag: u32) -> HostPath<u32> {
    HandlerPath::builder().uri(uri).handler(tag).build().unwrap()
}

fn handler_tag(path: &HostPath<u32>) -> u32 {
    match path {
        HostPath::Handler(h) => *h.handler(),
        _ => panic!("expected a handler path"),
    }
}

#[test]
fn route_picks_longest_prefix() {
    let mut host: VirtualHost<u32> = VirtualHost::new(host_config("localhost", 8080));
    host.add_path(handler_path("/", 1));
    host.add_path(handler_path("/api", 2));
    host.add_path(handler_path("/api/v1", 3));

    let (path, rest) = host.route("/api/v1/users").unwrap();
    assert_eq!(handler_tag(path), 3);
    assert_eq!(rest, "/users");

    let (path, rest) = host.route("/api/other").unwrap();
    assert_eq!(handler_tag(path), 2);
    assert_eq!(rest, "/other");

    let (path, rest) = host.route("/index.html").unwrap();
    assert_eq!(handler_tag(path), 1);
    assert_eq!(rest, "index.html");
}

#[test]
fn route_of_registered_uri_leaves_nothing() {
    let mut host: VirtualHost<u32> = VirtualHost::new(host_config("localhost", 8080));
    host.add_path(handler_path("/static", 7));
    let (path, rest) = host.route("/static").unwrap();
    assert_eq!(handler_tag(path), 7);
    assert_eq!(rest, "");
}

#[test]
fn route_without_prefix_is_none() {
    let mut host: VirtualHost<u32> = VirtualHost::new(host_config("localhost", 8080));
    host.add_path(handler_path("/api", 2));
    assert!(host.route("/other").is_none());
}

#[test]
fn add_path_replaces_same_uri() {
    let mut host: VirtualHost<u32> = VirtualHost::new(host_config("localhost", 8080));
    host.add_path(handler_path("/api", 2));
    host.add_path(handler_path("/api", 5));
    let (path, _) = host.route("/api/x").unwrap();
    assert_eq!(handler_tag(path), 5);
}

#[test]
fn new_host_serves_configured_paths() {
    let static_path = StaticPathConfig::builder()
        .uri("/files")
        .extensions(".html")
        .directory("/srv")
        .build()
        .unwrap();
    let proxy_path = ProxyPathConfig::builder()
        .uri("/proxy")
        .target("http://localhost:9000")
        .build()
        .unwrap();
    let config = VirtualHostConfig::builder()
        .hostname("example.com")
        .root_directory("tests")
        .static_paths(vec![static_path])
        .proxy_paths(vec![proxy_path])
        .build_for_root(true)
        .unwrap();
    let host: VirtualHost<u32> = VirtualHost::new(config);
    match host.route("/files/a.html").unwrap() {
        (HostPath::Static(p), rest) => {
            assert_eq!(p.uri(), "/files");
            assert_eq!(rest, "/a.html");
        }
        _ => panic!("expected the static path"),
    }
    match host.route("/proxy/b").unwrap() {
        (HostPath::Proxy(p), rest) => {
            assert_eq!(p.target_url(&rest), "http://localhost:9000/b");
        }
        _ => panic!("expected the proxy path"),
    }
}

#[test]
fn handler_path_builder_errors() {
    let no_uri = HandlerPath::<u32>::builder().uri("").handler(1).build();
    assert!(matches!(
        no_uri,
        Err(VetisError::VirtualHost(VirtualHostError::Handler(HandlerError::Uri(ref m)))) if m == "URI cannot be empty"
    ));
    let no_handler = HandlerPath::<u32>::builder().uri("/x").build();
    assert!(matches!(
        no_handler,
        Err(VetisError::VirtualHost(VirtualHostError::Handler(HandlerError::Handler(ref m)))) if m == "Handler must be set"
    ));
}

#[test]
fn registry_get_after_add() {
    let mut hosts: VirtualHosts<u32> = VirtualHosts::new();
    assert!(hosts.is_empty());
    hosts.add(VirtualHost::new(host_config("a.com", 80)));
    hosts.add(VirtualHost::new(host_config("b.com", 80)));
    hosts.add(VirtualHost::new(host_config("a.com", 8080)));
    assert_eq!(hosts.get("a.com", 80).unwrap().hostname(), "a.com");
    assert_eq!(hosts.get("a.com", 8080).unwrap().port(), 8080);
    assert!(hosts.get("c.com", 80).is_none());
    assert!(hosts.get("b.com", 8080).is_none());
    hosts.add(VirtualHost::new(host_config("a.com", 80)));
    assert_eq!(hosts.hosts().len(), 3);
}

#[test]
fn start_requires_virtual_host() {
    let config = ServerConfig::builder()
        .add_listener(ListenerConfig::builder().port(8080).build().unwrap())
        .build()
        .unwrap();
    let mut server: Vetis<u32> = Vetis::new(config);
    assert_eq!(
        server.start(),
        Err(VetisError::VirtualHost(VirtualHostError::NoVirtualHosts))
    );
    assert_eq!(server.stop(), Err(VetisError::NoInstances));
    server.add_virtual_host(VirtualHost::new(host_config("localhost", 8080)));
    assert_eq!(server.start(), Ok(()));
    server.mark_started();
    assert_eq!(server.stop(), Ok(()));
}

#[test]
fn status_page_lookup() {
    let mut pages = std::collections::HashMap::new();
    pages.insert(404u16, "/srv/404.html".to_string());
    let config = VirtualHostConfig::builder()
        .root_directory("tests")
        .status_pages(pages)
        .build_for_root(true)
        .unwrap();
    let host: VirtualHost<u32> = VirtualHost::new(config);
    assert_eq!(host.status_page(404).map(|s| s.as_str()), Some("/srv/404.html"));
    assert!(host.status_page(500).is_none());
}

#[test]
fn later_user_entry_wins() {
    let config = BasicAuthConfig::builder()
        .users(vec![
            ("ana".to_string(), "h1".to_string()),
            ("bob".to_string(), "h2".to_string()),
            ("ana".to_string(), "h3".to_string()),
        ])
        .build()
        .unwrap();
    assert_eq!(config.user_hash("ana").map(|h| h.as_str()), Some("h3"));
    assert_eq!(config.user_hash("bob").map(|h| h.as_str()), Some("h2"));
    assert!(config.user_hash("eve").is_none());
}

#[test]
fn htpasswd_users_are_added() {
    let config = BasicAuthConfig::builder()
        .users(vec![("ana".to_string(), "old".to_string())])
        .add_htpasswd_users("ana:new\ncarl:$2y$05$abc\n")
        .build()
        .unwrap();
    assert_eq!(config.user_hash("ana").map(|h| h.as_str()), Some("new"));
    assert_eq!(config.user_hash("carl").map(|h| h.as_str()), Some("$2y$05$abc"));
}
