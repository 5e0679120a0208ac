use base64::Engine;
use vetis::config::server::virtual_host::path::auth::{Algorithm, BasicAuthConfig};
use vetis::config::server::virtual_host::VirtualHostConfig;
use vetis::config::server::Protocol;
use vetis::errors::{VetisError, VirtualHostError};
use vetis::server::conn::{
    error_status_page, looks_like_tls, plan_request, quic_answer, request_host, response_headers,
    transport_for, QuicAnswer, RequestPlan, Transport,
};
use vetis::server::virtual_host::path::{HandlerPath, HostPath};
use vetis::server::virtual_host::registry::VirtualHosts;
use vetis::server::virtual_host::VirtualHost;
use vetis::server::virtual_host::path::auth::basic_auth::{basic_credentials_of, verify_password, BasicAuth};
use vetis::server::virtual_host::path::auth::{Auth, AuthType};
use vetis::text::{header_text, join, lines, parse_u64, split_once_char};
use vetis::utils::date::format_date;

fn basic_header(credentials: &str) -> Vec<u8> {
    let encoded = base64::engine::general_purpose::STANDARD.encode(credentials);
    format!("Basic {}", encoded).into_bytes()
}

fn auth_error(message: &str) -> VetisError {
    VetisError::VirtualHost(VirtualHostError::Auth(message.to_string()))
}

fn bcrypt_auth() -> BasicAuth {
    let hash = bcrypt::hash("rpa78@rio!", 4).unwrap();
    let config = BasicAuthConfig::builder()
        .users(vec![("rogerio".to_string(), hash)])
        .algorithm(Algorithm::BCrypt)
        .build()
        .unwrap();
    BasicAuth::new(config)
}

#[test]
fn basic_auth_accepts_valid_credentials() {
    let auth = bcrypt_auth();
    let header = basic_header("rogerio:rpa78@rio!");
    assert_eq!(auth.authenticate(Some(&header)), Ok(true));
    let auth = AuthType::Basic(auth);
    assert_eq!(auth.authenticate(Some(&header)), Ok(true));
}

#[test]
fn basic_auth_rejects_wrong_password_and_unknown_user() {
    let auth = bcrypt_auth();
    assert_eq!(auth.authenticate(Some(&basic_header("rogerio:wrong"))), Ok(false));
    assert_eq!(auth.authenticate(Some(&basic_header("nobody:rpa78@rio!"))), Ok(false));
}

#[test]
fn basic_auth_errors() {
    let auth = bcrypt_auth();
    assert_eq!(auth.authenticate(None), Err(auth_error("Missing Authorization header")));
    assert_eq!(
        auth.authenticate(Some("Basic \u{1}".as_bytes())),
        Err(auth_error("Invalid Authorization header"))
    );
    assert_eq!(
        auth.authenticate(Some(b"Bearer abc")),
        Err(auth_error("Expected basic authentication"))
    );
    match auth.authenticate(Some(b"Basic !!!")) {
        Err(VetisError::VirtualHost(VirtualHostError::Auth(m))) => {
            assert!(m.starts_with("Could not decode header: "))
        }
        other => panic!("unexpected {:?}", other),
    }
    let not_utf8 = format!(
        "Basic {}",
        base64::engine::general_purpose::STANDARD.encode([0xffu8, 0xfe, b':', b'a'])
    );
    assert_eq!(
        auth.authenticate(Some(not_utf8.as_bytes())),
        Err(auth_error("Invalid Authorization header"))
    );
    assert_eq!(
        auth.authenticate(Some(&basic_header("no-colon"))),
        Err(auth_error("Invalid credentials"))
    );
}

#[test]
fn credentials_split_at_first_colon() {
    let header = basic_header("user:pa:ss");
    assert_eq!(
        basic_credentials_of(Some(&header)),
        Ok(("user".to_string(), "pa:ss".to_string()))
    );
}

#[test]
fn bcrypt_hash_of_wrong_length_never_matches() {
    assert!(!verify_password("secret", "short", &Algorithm::BCrypt));
}

#[test]
fn argon2_unparsable_hash_never_matches() {
    assert!(!verify_password("secret", "not-a-phc-string", &Algorithm::Argon2));
}

#[test]
fn request_host_resolution() {
    assert_eq!(request_host(Some(b"example.com:8080"), None), "example.com");
    assert_eq!(request_host(Some(b"example.com"), Some("other")), "example.com");
    assert_eq!(request_host(Some(&[0x7f]), Some("other")), "localhost");
    assert_eq!(request_host(None, Some("authority.org")), "authority.org");
    assert_eq!(request_host(None, None), "localhost");
}

#[test]
fn tls_detection() {
    assert!(looks_like_tls(&[0x16, 0x03, 0x01, 0x00]));
    assert!(!looks_like_tls(b"GET / HTTP/1.1"));
    assert!(!looks_like_tls(&[0x16]));
}

#[test]
fn listener_transports() {
    assert_eq!(transport_for(Protocol::Http1), Transport::Tcp);
    assert_eq!(transport_for(Protocol::Http2), Transport::Tcp);
    assert_eq!(transport_for(Protocol::Http3), Transport::Udp);
}

#[test]
fn default_headers_skip_invalid_ones() {
    let config = VirtualHostConfig::builder()
        .root_directory("tests")
        .header("X-Served-By", "vetis")
        .header("bad name", "x")
        .header("X-Bad-Value", "a\u{1}b")
        .header("Cache-Control", "no-cache")
        .build_for_root(true)
        .unwrap();
    assert_eq!(
        response_headers(&config),
        vec![
            ("X-Served-By".to_string(), "vetis".to_string()),
            ("Cache-Control".to_string(), "no-cache".to_string())
        ]
    );
}

#[test]
fn invalid_path_errors_get_status_page() {
    assert_eq!(
        error_status_page(&VetisError::VirtualHost(VirtualHostError::InvalidPath("x".into()))),
        Some(404)
    );
    assert_eq!(error_status_page(&VetisError::Handler("x".into())), None);
}

#[test]
fn text_helpers() {
    assert_eq!(parse_u64("42"), Some(42));
    assert_eq!(parse_u64("+7"), Some(7));
    assert_eq!(parse_u64(""), None);
    assert_eq!(parse_u64("+"), None);
    assert_eq!(parse_u64("-1"), None);
    assert_eq!(parse_u64("18446744073709551615"), Some(u64::MAX));
    assert_eq!(parse_u64("18446744073709551616"), None);
    assert_eq!(join("/srv", "a.html"), "/srv/a.html");
    assert_eq!(join("/srv/", "a.html"), "/srv/a.html");
    assert_eq!(join("", "a.html"), "a.html");
    assert_eq!(join("/srv", "/etc/passwd"), "/etc/passwd");
    assert_eq!(
        split_once_char("a=b=c", '='),
        Some(("a".to_string(), "b=c".to_string()))
    );
    assert_eq!(lines("a:1\r\nb:2\n"), vec!["a:1".to_string(), "b:2".to_string()]);
    assert_eq!(header_text(b"abc\tdef"), Some("abc\tdef".to_string()));
    assert_eq!(header_text(&[0x80]), None);
}

#[test]
fn date_format() {
    assert_eq!(format_date(0), Some("Thu, 01 Jan 1970 00:00:00 +0000".to_string()));
}

#[test]
fn quic_answers() {
    assert!(matches!(quic_answer(None, true, true), QuicAnswer::Status(400, ref m) if m == "Host not found in request"));
    assert!(matches!(quic_answer(Some("a"), false, true), QuicAnswer::Status(404, ref m) if m == "Virtual host not found"));
    assert!(matches!(quic_answer(Some("a"), true, false), QuicAnswer::Status(500, ref m) if m == "Internal server error"));
    assert!(matches!(quic_answer(Some("a"), true, true), QuicAnswer::Routed));
}

#[test]
fn request_plans() {
    let config = VirtualHostConfig::builder()
        .hostname("example.com")
        .port(8080)
        .root_directory("tests")
        .header("X-Served-By", "vetis")
        .build_for_root(true)
        .unwrap();
    let mut host: VirtualHost<u32> = VirtualHost::new(config);
    host.add_path(HandlerPath::builder().uri("/api").handler(9u32).build().unwrap());
    let mut hosts = VirtualHosts::new();
    hosts.add(host);

    let plan = plan_request(&hosts, Some(b"other.org"), None, 8080, "/api");
    assert!(matches!(plan, RequestPlan::UnknownHost));
    assert_eq!(plan.direct_answer(), Some((404, "Virtual host not found".to_string())));

    let plan = plan_request(&hosts, Some(b"example.com:9999"), None, 8080, "/home");
    assert!(matches!(plan, RequestPlan::NoRoute));
    assert_eq!(plan.direct_answer(), Some((404, "Not Found".to_string())));

    let plan = plan_request(&hosts, None, Some("example.com"), 8080, "/api/users");
    assert_eq!(plan.direct_answer(), None);
    match plan {
        RequestPlan::Routed { host, path, rest, headers } => {
            assert_eq!(host.hostname(), "example.com");
            assert!(matches!(path, HostPath::Handler(h) if *h.handler() == 9));
            assert_eq!(rest, "/users");
            assert_eq!(headers, vec![("X-Served-By".to_string(), "vetis".to_string())]);
        }
        _ => panic!("expected a routed plan"),
    }
}
