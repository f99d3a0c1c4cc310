use phantun::config::{
    config_file_name, default_local, default_remote, default_tun_local, default_tun_local6,
    default_tun_peer, default_tun_peer6, Config, ConfigDocument, Route,
};
use phantun::settings::{config_path, CommandLine, Settings};

fn empty_document() -> ConfigDocument {
    ConfigDocument {
        local: None,
        remote: None,
        ipv4_only: None,
        tun_local: None,
        tun_peer: None,
        tun_local6: None,
        tun_peer6: None,
        routes: None,
    }
}

fn no_options() -> CommandLine {
    CommandLine {
        config: None,
        local: None,
        remote: None,
        ipv4_only: false,
        tun_local: None,
        tun_peer: None,
    }
}

#[test]
fn defaults_have_documented_values() {
    assert_eq!(default_local(), "127.0.0.1:8080");
    assert_eq!(default_remote(), "127.0.0.1:65000");
    assert_eq!(default_tun_local(), "192.168.200.1");
    assert_eq!(default_tun_peer(), "192.168.200.2");
    assert_eq!(default_tun_local6(), "fcc8::1");
    assert_eq!(default_tun_peer6(), "fcc8::2");
    assert_eq!(config_file_name(), "phantun-client.json");
}

#[test]
fn default_config_uses_every_default() {
    let c = Config::default();
    assert_eq!(c.local, "127.0.0.1:8080");
    assert_eq!(c.remote, "127.0.0.1:65000");
    assert!(!c.ipv4_only);
    assert_eq!(c.tun_local, "192.168.200.1");
    assert_eq!(c.tun_peer, "192.168.200.2");
    assert_eq!(c.tun_local6, "fcc8::1");
    assert_eq!(c.tun_peer6, "fcc8::2");
    assert!(c.routes.is_empty());
}

#[test]
fn empty_document_is_invalid_and_loads_defaults() {
    assert!(!empty_document().has_required_fields());
    assert!(Config::from_document(empty_document()).is_none());
    let c = Config::from_loaded(Some(empty_document()));
    assert_eq!(c.local, "127.0.0.1:8080");
    assert_eq!(c.remote, "127.0.0.1:65000");
    assert!(!c.ipv4_only);
    assert_eq!(c.tun_peer6, "fcc8::2");
    assert!(c.routes.is_empty());
}

#[test]
fn document_without_remote_loads_defaults() {
    // { "local": "10.0.0.1:9000" }
    let mut doc = empty_document();
    doc.local = Some("10.0.0.1:9000".to_string());
    doc.ipv4_only = Some(true);
    assert!(!doc.has_required_fields());
    let c = Config::from_loaded(Some(doc));
    assert_eq!(c.local, "127.0.0.1:8080");
    assert_eq!(c.remote, "127.0.0.1:65000");
    assert!(!c.ipv4_only);
}

#[test]
fn document_without_local_loads_defaults() {
    let mut doc = empty_document();
    doc.remote = Some("10.1.2.3:4567".to_string());
    let c = Config::from_loaded(Some(doc));
    assert_eq!(c.local, "127.0.0.1:8080");
    assert_eq!(c.remote, "127.0.0.1:65000");
}

#[test]
fn readme_document_keeps_its_fields_and_defaults_the_rest() {
    // { "local": "127.0.0.1:8080", "remote": "your.server.ip:65009", "ipv4_only": true }
    let mut doc = empty_document();
    doc.local = Some("127.0.0.1:8080".to_string());
    doc.remote = Some("your.server.ip:65009".to_string());
    doc.ipv4_only = Some(true);
    assert!(doc.has_required_fields());
    let c = Config::from_document(doc).expect("local and remote are present");
    assert_eq!(c.local, "127.0.0.1:8080");
    assert_eq!(c.remote, "your.server.ip:65009");
    assert!(c.ipv4_only);
    assert_eq!(c.tun_local, "192.168.200.1");
    assert_eq!(c.tun_peer, "192.168.200.2");
    assert_eq!(c.tun_local6, "fcc8::1");
    assert_eq!(c.tun_peer6, "fcc8::2");
    assert!(c.routes.is_empty());
}

#[test]
fn routes_document_keeps_routes_in_order() {
    let mut doc = empty_document();
    doc.local = Some("127.0.0.1:8080".to_string());
    doc.remote = Some("120.26.71.147:65009".to_string());
    doc.ipv4_only = Some(true);
    doc.tun_local = Some("192.168.200.1".to_string());
    doc.tun_peer = Some("192.168.200.2".to_string());
    doc.routes = Some(vec![
        Route { dest: "10.0.0.0/8".to_string(), gateway: "192.168.200.1".to_string() },
        Route { dest: "172.16.0.0/12".to_string(), gateway: "192.168.200.1".to_string() },
    ]);
    let c = Config::from_document(doc).expect("local and remote are present");
    assert_eq!(c.routes.len(), 2);
    assert_eq!(c.routes[0].dest, "10.0.0.0/8");
    assert_eq!(c.routes[1].dest, "172.16.0.0/12");
    assert_eq!(c.routes[1].gateway, "192.168.200.1");
}

#[test]
fn failed_load_falls_back_to_defaults() {
    let c = Config::from_loaded(None);
    assert_eq!(c.local, "127.0.0.1:8080");
    assert_eq!(c.remote, "127.0.0.1:65000");
    assert!(!c.ipv4_only);
}

#[test]
fn successful_load_uses_document() {
    let mut doc = empty_document();
    doc.local = Some("0.0.0.0:7000".to_string());
    doc.remote = Some("10.1.2.3:4567".to_string());
    let c = Config::from_loaded(Some(doc));
    assert_eq!(c.remote, "10.1.2.3:4567");
    assert_eq!(c.local, "0.0.0.0:7000");
    assert_eq!(c.tun_local, "192.168.200.1");
}

#[test]
fn route_command_arguments() {
    let r = Route { dest: "0.0.0.0/0".to_string(), gateway: "192.168.200.1".to_string() };
    assert_eq!(
        r.add_command_args("tun0"),
        vec!["route", "add", "0.0.0.0/0", "via", "192.168.200.1", "dev", "tun0"]
    );
}

#[test]
fn settings_keep_routes() {
    let mut c = Config::default();
    c.routes.push(Route { dest: "10.0.0.0/8".to_string(), gateway: "192.168.200.1".to_string() });
    let s = Settings::resolve(c, no_options(), false);
    assert_eq!(s.routes.len(), 1);
    assert_eq!(s.routes[0].dest, "10.0.0.0/8");
}

#[test]
fn ipv4_only_platform_forces_ipv4() {
    let s = Settings::resolve(Config::default(), no_options(), true);
    assert!(s.ipv4_only);
    assert!(s.tun6.is_none());
}

#[test]
fn config_path_prefers_command_line() {
    assert_eq!(config_path(&no_options()), "phantun-client.json");
    let mut cli = no_options();
    cli.config = Some("/etc/phantun.json".to_string());
    assert_eq!(config_path(&cli), "/etc/phantun.json");
}

#[test]
fn command_line_overrides_config() {
    let mut cli = no_options();
    cli.local = Some("0.0.0.0:9000".to_string());
    cli.tun_peer = Some("10.0.0.2".to_string());
    let s = Settings::resolve(Config::default(), cli, false);
    assert_eq!(s.local, "0.0.0.0:9000");
    assert_eq!(s.remote, "127.0.0.1:65000");
    assert_eq!(s.tun_local, "192.168.200.1");
    assert_eq!(s.tun_peer, "10.0.0.2");
    assert!(!s.ipv4_only);
    let (l6, p6) = s.tun6.expect("IPv6 tunnel addresses are kept when IPv6 may be used");
    assert_eq!(l6, "fcc8::1");
    assert_eq!(p6, "fcc8::2");
}

#[test]
fn ipv4_only_from_either_side_drops_ipv6_tunnel() {
    let mut cli = no_options();
    cli.ipv4_only = true;
    let s = Settings::resolve(Config::default(), cli, false);
    assert!(s.ipv4_only);
    assert!(s.tun6.is_none());

    let mut c = Config::default();
    c.ipv4_only = true;
    let s = Settings::resolve(c, no_options(), false);
    assert!(s.ipv4_only);
    assert!(s.tun6.is_none());
}
