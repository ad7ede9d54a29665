use rpc_router::config::{Config, Environment};
use rpc_router::defaults::playground_url;

fn unset() -> Environment {
    Environment {
        zebra_url: None,
        zallet_url: None,
        zaino_url: None,
        rpc_user: None,
        rpc_password: None,
        cors_origin: None,
        listen_port: None,
    }
}

fn port(text: &str) -> u16 {
    Config::from_env(Environment {
        listen_port: Some(text.to_string()),
        ..unset()
    })
    .listen_port
}

#[test]
fn test_config_from_env_uses_defaults() {
    let config = Config::from_env(unset());
    assert_eq!(config.rpc_user, "zebra");
    assert_eq!(config.rpc_password, "zebra");
}

#[test]
fn test_config_from_env_reads_rpc_credentials() {
    let config = Config::from_env(Environment {
        rpc_user: Some("alice".to_string()),
        rpc_password: Some("s3cr3t".to_string()),
        ..unset()
    });
    assert_eq!(config.rpc_user, "alice");
    assert_eq!(config.rpc_password, "s3cr3t");
}

#[test]
fn test_config_defaults_of_all_settings() {
    let config = Config::from_env(unset());
    assert_eq!(config.zebra_url, "http://zebra:8232/");
    assert_eq!(config.zallet_url, "http://zallet:28232/");
    assert_eq!(config._zaino_url, "http://zaino:8237/");
    assert_eq!(config.cors_origin, "https://playground.open-rpc.org");
    assert_eq!(config.listen_port, 8232);
}

#[test]
fn test_config_reads_all_settings() {
    let config = Config::from_env(Environment {
        zebra_url: Some("http://a/".to_string()),
        zallet_url: Some("http://b/".to_string()),
        zaino_url: Some("http://c/".to_string()),
        rpc_user: Some(String::new()),
        rpc_password: Some("p".to_string()),
        cors_origin: Some("*".to_string()),
        listen_port: Some("9000".to_string()),
    });
    assert_eq!(config.zebra_url, "http://a/");
    assert_eq!(config.zallet_url, "http://b/");
    assert_eq!(config._zaino_url, "http://c/");
    assert_eq!(config.rpc_user, "");
    assert_eq!(config.rpc_password, "p");
    assert_eq!(config.cors_origin, "*");
    assert_eq!(config.listen_port, 9000);
}

#[test]
fn test_config_port_is_a_decimal_number_of_16_bits() {
    assert_eq!(port("0"), 0);
    assert_eq!(port("+80"), 80);
    assert_eq!(port("0000000443"), 443);
    assert_eq!(port("65535"), 65535);
}

#[test]
fn test_config_port_falls_back_to_the_default() {
    for text in ["", "+", "-", "-0", "65536", "99999999999999999999", " 80", "80 ", "8_0", "++8", "0x10", "\u{0663}"] {
        assert_eq!(port(text), 8232, "{:?}", text);
    }
}

#[test]
fn test_playground_url_holds_the_address() {
    assert_eq!(
        playground_url("0.0.0.0:8232"),
        "https://playground.open-rpc.org/?uiSchema[appBar][ui:title]=Zcash&uiSchema[appBar][ui:logoUrl]=https://z.cash/wp-content/uploads/2023/03/zcash-logo.gif&schemaUrl=0.0.0.0:8232&uiSchema[appBar][ui:splitView]=false&uiSchema[appBar][ui:edit]=false&uiSchema[appBar][ui:input]=false&uiSchema[appBar][ui:examplesDropdown]=false&uiSchema[appBar][ui:transports]=false"
    );
}

#[test]
fn test_playground_url_takes_the_address_as_it_is() {
    assert!(playground_url("{{addr}}").contains("schemaUrl={{addr}}&"));
}
