use cosmic_share_browser::install::{
    find_daemon_binary, installed_daemon_path, local_bin_dir, service_dir, service_unit_text,
    Lookup,
};

fn some(s: &str) -> Option<String> {
    Some(s.to_string())
}

#[test]
fn unit_text() {
    let t = service_unit_text();
    assert!(t.starts_with("[Unit]\nDescription=COSMIC Share Browser - WebDAV sharing daemon\n"));
    assert!(t.contains("\n[Service]\nExecStart=%h/.local/bin/cosmic-share-daemon\n"));
    assert!(t.contains("Restart=on-failure\nRestartSec=5\n"));
    assert!(t.ends_with("[Install]\nWantedBy=default.target\n"));
}

#[test]
fn install_paths() {
    assert_eq!(local_bin_dir("/home/ann"), "/home/ann/.local/bin");
    assert_eq!(installed_daemon_path("/home/ann"), "/home/ann/.local/bin/cosmic-share-daemon");
    assert_eq!(installed_daemon_path("/home/ann/"), "/home/ann/.local/bin/cosmic-share-daemon");
    assert_eq!(service_dir("/home/ann"), "/home/ann/.config/systemd/user");
}

#[test]
fn daemon_found_beside_the_program() {
    let exe = Some(some("/opt/share/bin"));
    let home = some("/home/ann");
    match find_daemon_binary(&exe, &home, &vec![], &None) {
        Lookup::CheckExists(p) => assert_eq!(p, "/opt/share/bin/cosmic-share-daemon"),
        _ => panic!("expected a check beside the program"),
    }
    match find_daemon_binary(&exe, &home, &vec![true], &None) {
        Lookup::Found(p) => assert_eq!(p, "/opt/share/bin/cosmic-share-daemon"),
        _ => panic!("expected the program beside"),
    }
}

#[test]
fn daemon_found_in_local_bin_then_on_path() {
    let exe = Some(some("/opt/share/bin"));
    let home = some("/home/ann");
    match find_daemon_binary(&exe, &home, &vec![false], &None) {
        Lookup::CheckExists(p) => assert_eq!(p, "/home/ann/.local/bin/cosmic-share-daemon"),
        _ => panic!("expected a check in ~/.local/bin"),
    }
    match find_daemon_binary(&exe, &home, &vec![false, true], &None) {
        Lookup::Found(p) => assert_eq!(p, "/home/ann/.local/bin/cosmic-share-daemon"),
        _ => panic!("expected the program in ~/.local/bin"),
    }
    match find_daemon_binary(&exe, &home, &vec![false, false], &None) {
        Lookup::Run(cmd) => assert_eq!(cmd, vec!["which", "cosmic-share-daemon"]),
        _ => panic!("expected which"),
    }
    match find_daemon_binary(&exe, &home, &vec![false, false], &Some(some("/usr/bin/cosmic-share-daemon\n"))) {
        Lookup::Found(p) => assert_eq!(p, "/usr/bin/cosmic-share-daemon"),
        _ => panic!("expected the output of which"),
    }
    assert!(matches!(
        find_daemon_binary(&exe, &home, &vec![false, false], &Some(None)),
        Lookup::Missing
    ));
}

#[test]
fn daemon_search_stops_early() {
    assert!(matches!(
        find_daemon_binary(&Some(None), &some("/home/ann"), &vec![], &None),
        Lookup::Missing
    ));
    assert!(matches!(
        find_daemon_binary(&Some(some("/opt")), &None, &vec![false], &None),
        Lookup::Missing
    ));
    match find_daemon_binary(&None, &some("/home/ann"), &vec![], &None) {
        Lookup::CheckExists(p) => assert_eq!(p, "/home/ann/.local/bin/cosmic-share-daemon"),
        _ => panic!("expected a check in ~/.local/bin"),
    }
}
