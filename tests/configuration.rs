use phobost::configuration::Config;

#[test]
fn default_config_binds_any_local_port() {
    let cfg = Config::default();
    assert!(!cfg.debug);
    assert_eq!(cfg.host, "127.0.0.1");
    assert_eq!(cfg.port, 0);
    assert_eq!(cfg.connection_string(), "127.0.0.1:0");
}

#[test]
fn connection_string_writes_port_in_decimal() {
    let cfg = Config { debug: false, host: "0.0.0.0".to_string(), port: 8080 };
    assert_eq!(cfg.connection_string(), "0.0.0.0:8080");
    let cfg = Config { debug: false, host: "localhost".to_string(), port: 65535 };
    assert_eq!(cfg.connection_string(), "localhost:65535");
    let cfg = Config { debug: false, host: "h".to_string(), port: 10 };
    assert_eq!(cfg.connection_string(), "h:10");
    let cfg = Config { debug: false, host: "h".to_string(), port: 9 };
    assert_eq!(cfg.connection_string(), "h:9");
}

#[test]
fn log_level_follows_debug_flag() {
    let mut cfg = Config::default();
    assert_eq!(cfg.log_level(), "info");
    cfg.debug = true;
    assert_eq!(cfg.log_level(), "debug");
}
