use finance_tracker::application::dto::{CreateAccountRequest, MessageResponse};
use finance_tracker::infrastructure::Config;

fn config(host: &str, port: u16) -> Config {
    Config { database_url: "postgres://ledger".to_string(), server_host: host.to_string(), server_port: port }
}

#[test]
fn server_addr_joins_host_and_port() {
    assert_eq!(config("127.0.0.1", 3000).server_addr(), "127.0.0.1:3000");
    assert_eq!(config("localhost", 8080).server_addr(), "localhost:8080");
    assert_eq!(config("0.0.0.0", 0).server_addr(), "0.0.0.0:0");
    assert_eq!(config("::1", 65535).server_addr(), "::1:65535");
    assert_eq!(config("", 7).server_addr(), ":7");
    assert_eq!(config("h", 1009).server_addr(), "h:1009");
    assert_eq!(config("h", 24680).server_addr(), "h:24680");
    assert_eq!(config("h", 13579).server_addr(), "h:13579");
}

#[test]
fn server_addr_agrees_with_the_standard_formatting_of_every_port() {
    for port in 0..=u16::MAX {
        assert_eq!(config("host", port).server_addr(), format!("host:{}", port));
    }
}

#[test]
fn settings_fall_back_on_defaults() {
    let config = Config::from_settings("postgres://db".to_string(), None, None);
    assert_eq!(config.database_url, "postgres://db");
    assert_eq!(config.server_host, "127.0.0.1");
    assert_eq!(config.server_port, 3000);
    assert_eq!(config.server_addr(), "127.0.0.1:3000");
}

#[test]
fn settings_take_what_is_given() {
    let config = Config::from_settings(
        "postgres://db".to_string(),
        Some("0.0.0.0".to_string()),
        Some("8080".to_string()),
    );
    assert_eq!(config.server_host, "0.0.0.0");
    assert_eq!(config.server_port, 8080);
}

#[test]
fn a_port_that_is_none_falls_back() {
    for text in ["", "http", "70000", "-1", "80 ", "8o80", "65536"] {
        let config = Config::from_settings(String::new(), None, Some(text.to_string()));
        assert_eq!(config.server_port, 3000);
    }
    for (text, port) in [("0", 0), ("65535", 65535), ("+443", 443), ("0080", 80)] {
        let config = Config::from_settings(String::new(), None, Some(text.to_string()));
        assert_eq!(config.server_port, port);
    }
}

#[test]
fn message_response_takes_texts_of_both_kinds() {
    assert_eq!(MessageResponse::new("Account deleted successfully").message, "Account deleted successfully");
    assert_eq!(MessageResponse::new(String::from("OK")).message, "OK");
    assert_eq!(MessageResponse::new(""), MessageResponse { message: String::new() });
}

#[test]
fn create_request_holds_name_and_currency() {
    let request = CreateAccountRequest { name: "Wallet".to_string(), currency: "RUB".to_string() };
    assert_eq!(request.name, "Wallet");
    assert_eq!(request.currency, "RUB");
}
