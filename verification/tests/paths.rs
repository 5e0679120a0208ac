use vetis::config::server::virtual_host::path::proxy::ProxyPathConfig;
use vetis::config::server::virtual_host::path::static_files::StaticPathConfig;
use vetis::errors::{ConfigError, VetisError};
use vetis::server::tls::TlsFactory;

#[test]
fn test_static_path_config() -> Result<(), VetisError> {
    let path_config = StaticPathConfig::builder()
        .uri("/test")
        .extensions(".html")
        .directory("./test")
        .build()?;

    assert_eq!(path_config.uri(), "/test");
    assert_eq!(path_config.directory(), "./test");
    assert_eq!(path_config.extensions(), ".html");

    Ok(())
}

#[test]
fn test_invalid_uri() {
    let some_path = StaticPathConfig::builder().uri("").build();

    assert!(some_path.is_err());
    assert_eq!(
        some_path.err(),
        Some(VetisError::Config(ConfigError::Path("URI cannot be empty".into(),)))
    );
}

#[test]
fn test_invalid_extensions() {
    let some_path = StaticPathConfig::builder().uri("/test").extensions("").build();

    assert!(some_path.is_err());
    assert_eq!(
        some_path.err(),
        Some(VetisError::Config(ConfigError::Path("Extensions cannot be empty".into(),)))
    );
}

#[test]
fn test_invalid_directory() {
    let some_path = StaticPathConfig::builder()
        .uri("/test")
        .extensions(".html")
        .directory("")
        .build();

    assert!(some_path.is_err());
    assert_eq!(
        some_path.err(),
        Some(VetisError::Config(ConfigError::Path("Directory cannot be empty".into(),)))
    );
}

#[test]
fn test_proxy_path() -> Result<(), VetisError> {
    let some_path = ProxyPathConfig::builder()
        .uri("/test")
        .target("http://localhost:8080")
        .build()?;

    assert_eq!(some_path.uri(), "/test");
    assert_eq!(some_path.target(), "http://localhost:8080");

    Ok(())
}

#[test]
fn test_invalid_proxy_path() -> Result<(), VetisError> {
    let some_path = ProxyPathConfig::builder()
        .uri("")
        .target("http://localhost:8080")
        .build();

    assert!(some_path.is_err());
    assert_eq!(
        some_path.err(),
        Some(VetisError::Config(ConfigError::Path("URI cannot be empty".into(),)))
    );

    Ok(())
}

#[test]
fn test_invalid_proxy_path_target() -> Result<(), VetisError> {
    let some_path = ProxyPathConfig::builder().uri("/test").target("").build();

    assert!(some_path.is_err());
    assert_eq!(
        some_path.err(),
        Some(VetisError::Config(ConfigError::Path("Target cannot be empty".into(),)))
    );

    Ok(())
}

#[test]
fn test_tls_factory_struct_exists() {
    // This test ensures the TlsFactory struct is accessible
    let _factory = TlsFactory {};
}
