use cosmic_share_browser::discovery::{
    browse_command, local_ips_command, mount_command, mounts_command, parse_avahi_output,
    parse_local_ips, parse_mounted, unmount_command, Share,
};

const AVAHI: &str = "+;wlan0;IPv4;Files on nas;_webdav._tcp;local\n\
=;wlan0;IPv4;Files on nas;_webdav._tcp;local;nas.local.;192.168.4.10;8080;\"u=/\" \"path=/\"\n\
=;wlan0;IPv6;Files on nas;_webdav._tcp;local;nas.local.;fe80::1;8080;\"u=/\"\n\
=;wlan0;IPv4;COSMIC-Share;_webdav._tcp;local;me.local.;192.168.4.64;40000;\"u=/\"\n\
=;wlan0;IPv4;Laptop;_webdav._tcp;local;laptop.local;192.168.4.20;9000;\"u=/\"\n\
=;wlan0;IPv4;Broken;_webdav._tcp;local;broken.local.;192.168.4.30;0;\n\
=;wlan0;IPv4;Nameless;_webdav._tcp;local;.;192.168.4.31;80;\n\
=;wlan0;IPv4;Short;_webdav._tcp;local;short.local.;192.168.4.32\n\
=;wlan0;IPv4;Bad port;_webdav._tcp;local;bad.local.;192.168.4.33;http;\n";

#[test]
fn share_uri() {
    let s = Share::new("nas.local".to_string(), 8080);
    assert_eq!(s.hostname, "nas.local");
    assert_eq!(s.port, 8080);
    assert_eq!(s.uri, "dav://nas.local:8080/");
}

#[test]
fn avahi_output_is_read() {
    let local = vec!["192.168.4.64".to_string(), "127.0.0.1".to_string()];
    let shares = parse_avahi_output(AVAHI, &local);
    let got: Vec<(String, u16, String)> =
        shares.into_iter().map(|s| (s.hostname, s.port, s.uri)).collect();
    assert_eq!(
        got,
        vec![
            ("nas.local".to_string(), 8080, "dav://nas.local:8080/".to_string()),
            ("laptop.local".to_string(), 9000, "dav://laptop.local:9000/".to_string()),
        ]
    );
}

#[test]
fn own_share_is_shown_without_local_addresses() {
    let shares = parse_avahi_output(AVAHI, &Vec::new());
    assert_eq!(shares.len(), 3);
    assert_eq!(shares[1].uri, "dav://me.local:40000/");
}

#[test]
fn empty_avahi_output() {
    assert!(parse_avahi_output("", &Vec::new()).is_empty());
}

#[test]
fn local_addresses() {
    let out = "1: lo    inet 127.0.0.1/8 scope host lo\\       valid_lft forever preferred_lft forever\n\
1: lo    inet6 ::1/128 scope host noprefixroute \\       valid_lft forever\n\
2: wlan0    inet 192.168.4.64/24 brd 192.168.4.255 scope global dynamic wlan0\n\
3: odd line\n";
    assert_eq!(parse_local_ips(out), vec!["127.0.0.1", "::1", "192.168.4.64"]);
    assert!(parse_local_ips("").is_empty());
}

#[test]
fn mounted_shares() {
    let out = "Drive(0): Disk\n  Type: GProxyDrive\nMount(0): nas.local -> dav://nas.local:8080/\n  Type: GDaemonMount\nMount(1): x -> dav://h:1/  extra\n";
    assert_eq!(parse_mounted(out), vec!["dav://nas.local:8080/", "dav://h:1/"]);
    assert!(parse_mounted("Mount(0): disk -> file:///media\n").is_empty());
}

#[test]
fn discovery_commands() {
    assert_eq!(local_ips_command(), vec!["ip", "-o", "addr", "show"]);
    assert_eq!(
        browse_command(),
        vec!["avahi-browse", "--terminate", "--resolve", "--parsable", "_webdav._tcp"]
    );
    assert_eq!(mounts_command(), vec!["gio", "mount", "--list"]);
}

#[test]
fn mount_and_unmount_commands() {
    let uri = "dav://nas.local:8080/";
    assert_eq!(mount_command(uri), vec!["gio", "mount", "dav://nas.local:8080/"]);
    assert_eq!(
        unmount_command(uri),
        vec!["gio", "mount", "--unmount", "dav://nas.local:8080/"]
    );
}
