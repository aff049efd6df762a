use loudness_meter::config::{config_path, default_channels, Config, InputConfig, JackConfig, WebConfig};
use loudness_meter::table::Table;

#[test]
fn default_channels_is_stereo() {
    assert_eq!(default_channels(), 2);
}

#[test]
fn web_config_default_is_loopback_5005() {
    let web = WebConfig::default();
    assert_eq!(web.host, "::1");
    assert_eq!(web.port, 5005);
}

#[test]
fn jack_config_default_client_name() {
    let jack = JackConfig::default();
    assert_eq!(jack.client_name, "loudness_meter");
}

#[test]
fn config_default_has_no_inputs() {
    let config = Config::default();
    assert_eq!(config.web.host, "::1");
    assert_eq!(config.web.port, 5005);
    assert_eq!(config.jack.client_name, "loudness_meter");
    assert!(config.inputs.is_empty());
    assert_eq!(config.inputs.len(), 0);
}

#[test]
fn bind_address_joins_host_and_port() {
    assert_eq!(WebConfig::default().bind_address(), "::1:5005");
    let web = WebConfig { host: "0.0.0.0".to_string(), port: 80 };
    assert_eq!(web.bind_address(), "0.0.0.0:80");
    let web = WebConfig { host: "localhost".to_string(), port: 0 };
    assert_eq!(web.bind_address(), "localhost:0");
    let web = WebConfig { host: String::new(), port: 65535 };
    assert_eq!(web.bind_address(), ":65535");
}

#[test]
fn bind_address_matches_standard_formatting() {
    for port in [0u16, 1, 9, 10, 11, 99, 100, 101, 999, 1000, 5005, 9999, 10000, 65535] {
        let web = WebConfig { host: "h".to_string(), port };
        assert_eq!(web.bind_address(), format!("{}:{}", "h", port));
    }
}

#[test]
fn config_path_prefers_the_configured_path() {
    assert_eq!(config_path(Some("/etc/meter.json".to_string())), "/etc/meter.json");
    assert_eq!(config_path(Some(String::new())), "");
}

#[test]
fn config_path_falls_back_to_config_json() {
    assert_eq!(config_path(None), "config.json");
}

#[test]
fn has_input_knows_configured_buses_only() {
    let mut config = Config::default();
    config.inputs.insert(
        "music".to_string(),
        InputConfig { name: "Music".to_string(), channels: 2 },
    );
    assert!(config.has_input(&"music".to_string()));
    assert!(!config.has_input(&"Music".to_string()));
    assert!(!config.has_input(&"speech".to_string()));
    assert!(!config.has_input(&String::new()));
}

#[test]
fn config_clone_keeps_everything() {
    let mut inputs: Table<InputConfig> = Table::new();
    inputs.insert("a".to_string(), InputConfig { name: "A".to_string(), channels: 1 });
    inputs.insert("b".to_string(), InputConfig { name: "B".to_string(), channels: 6 });
    let config = Config {
        web: WebConfig { host: "example".to_string(), port: 8080 },
        inputs,
        jack: JackConfig { client_name: "meter".to_string() },
    };
    let copy = config.clone();
    assert_eq!(copy.web.host, "example");
    assert_eq!(copy.web.port, 8080);
    assert_eq!(copy.jack.client_name, "meter");
    assert_eq!(copy.inputs.len(), 2);
    assert_eq!(copy.inputs.name(0), "a");
    assert_eq!(copy.inputs.name(1), "b");
    assert_eq!(copy.inputs.value(0).name, "A");
    assert_eq!(copy.inputs.value(0).channels, 1);
    assert_eq!(copy.inputs.value(1).name, "B");
    assert_eq!(copy.inputs.value(1).channels, 6);
}
