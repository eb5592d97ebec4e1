use cosmic_share_browser::config::{
    default_read_only, home_or_fallback, port_file_text, port_from_file_text,
    runtime_dir_or_fallback, Config,
};

#[test]
fn read_only_by_default() {
    assert!(default_read_only());
    let c = Config::default_for_home("/home/ann");
    assert!(!c.enabled);
    assert!(c.read_only);
    assert_eq!(c.shared_dir, "/home/ann/Public");
    assert_eq!(c.service_name, "COSMIC-Share");
}

#[test]
fn fallbacks() {
    assert_eq!(home_or_fallback(None), "/home/user");
    assert_eq!(home_or_fallback(Some("/home/bob".to_string())), "/home/bob");
    assert_eq!(runtime_dir_or_fallback(None), "/tmp");
    assert_eq!(runtime_dir_or_fallback(Some("/run/user/1000".to_string())), "/run/user/1000");
}

#[test]
fn load_prefers_the_stored_configuration() {
    let stored = Config {
        enabled: true,
        shared_dir: "/srv/share".to_string(),
        service_name: "Box".to_string(),
        read_only: false,
    };
    let c = Config::load(Some(stored), "/home/ann");
    assert!(c.enabled);
    assert_eq!(c.shared_dir, "/srv/share");
    assert_eq!(c.service_name, "Box");
    assert!(!c.read_only);
    let d = Config::load(None, "/home/ann");
    assert_eq!(d.shared_dir, "/home/ann/Public");
    assert!(d.read_only && !d.enabled);
}

#[test]
fn paths() {
    assert_eq!(Config::path("/home/ann"), "/home/ann/.config/cosmic-share-browser/config.toml");
    assert_eq!(Config::path("/home/ann/"), "/home/ann/.config/cosmic-share-browser/config.toml");
    assert_eq!(Config::path(""), ".config/cosmic-share-browser/config.toml");
    assert_eq!(
        Config::service_path("/home/ann"),
        "/home/ann/.config/systemd/user/cosmic-share-daemon.service"
    );
    assert_eq!(Config::runtime_port_path("/run/user/1000"), "/run/user/1000/cosmic-share-daemon.port");
    assert_eq!(Config::last_port_path("/home/ann"), "/home/ann/.config/cosmic-share-browser/last_port");
}

#[test]
fn paths_follow_path_join() {
    for home in ["/home/ann", "/home/ann/", "", "rel", "/"] {
        let expected = std::path::PathBuf::from(home).join(".config/cosmic-share-browser/config.toml");
        assert_eq!(Config::path(home), expected.to_str().unwrap());
    }
}

#[test]
fn port_file_round_trip() {
    for port in [0u16, 1, 8080, 65535] {
        assert_eq!(port_from_file_text(&port_file_text(port)), Some(port));
        assert_eq!(port_from_file_text(&format!("{}\n", port_file_text(port))), Some(port));
        assert_eq!(port_from_file_text(&format!("  {} \r\n", port)), Some(port));
    }
    assert_eq!(port_file_text(43210), "43210");
}

#[test]
fn unreadable_port_files() {
    assert_eq!(port_from_file_text(""), None);
    assert_eq!(port_from_file_text("\n"), None);
    assert_eq!(port_from_file_text("abc"), None);
    assert_eq!(port_from_file_text("70000"), None);
    assert_eq!(port_from_file_text("80 81"), None);
    assert_eq!(port_from_file_text("+80"), Some(80));
}

#[test]
fn configuration_equality() {
    let a = Config::default_for_home("/h");
    let b = Config::load(None, "/h");
    assert!(a == b);
    let mut c = a.clone();
    c.read_only = false;
    assert!(a != c);
    let mut d = a.clone();
    d.shared_dir.push('x');
    assert!(a != d);
}
