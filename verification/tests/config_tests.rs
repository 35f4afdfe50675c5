use gexbot::config::{bind_address, config_path, Config};
use gexbot::web::Body;

#[test]
fn defaults_match_documented_values() {
    assert_eq!(Config::default_hostname(), "localhost");
    assert_eq!(Config::default_web_port(), 3444);
    assert_eq!(Config::default_mysql_port(), 3444);
    assert_eq!(Body::default_channel(), 544557150064738315);
}

#[test]
fn config_path_prefers_argument() {
    assert_eq!(config_path(Some("bot.yaml".to_string())), "bot.yaml");
    assert_eq!(config_path(None), "config.yaml");
}

#[test]
fn bind_address_joins_host_and_port() {
    assert_eq!(bind_address("localhost", 3444), "localhost:3444");
    assert_eq!(bind_address("0.0.0.0", 0), "0.0.0.0:0");
    assert_eq!(bind_address("example.org", 65535), "example.org:65535");
}
