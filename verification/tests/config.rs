use localserve::config::{ServerConfig, SERVER_PORT};

#[test]
fn index_path_is_derived_from_folder() {
    let config = ServerConfig::new("site".to_string());
    assert_eq!(config.index_path(), "site/index.html");
}

#[test]
fn bind_address_is_fixed_loopback() {
    let config = ServerConfig::new("site".to_string());
    assert_eq!(SERVER_PORT, 8080);
    assert_eq!(config.port(), 8080);
    assert_eq!(config.bind_octets(), [127, 0, 0, 1]);
    assert_eq!(config.base_url(), "http://127.0.0.1:8080");
}
