use cosmic_share_browser::firewall::{shell_escape_args, Detection, Firewall};

fn s(v: &[&str]) -> Vec<String> {
    v.iter().map(|x| x.to_string()).collect()
}

const NFT_DELETE_8080: &str = "handle=$(nft -a list chain inet filter input 2>/dev/null | grep 'tcp dport 8080 accept' | grep -oP 'handle \\K\\d+' | head -1); [ -n \"$handle\" ] && nft delete rule inet filter input handle $handle";

#[test]
fn names() {
    assert_eq!(Firewall::Ufw.name(), "UFW");
    assert_eq!(Firewall::Firewalld.name(), "firewalld");
    assert_eq!(Firewall::Nftables.name(), "nftables");
    assert_eq!(Firewall::Iptables.name(), "iptables");
    assert_eq!(Firewall::NotDetected.name(), "none detected");
}

#[test]
fn allow_commands() {
    assert_eq!(Firewall::Ufw.allow_args(8080), s(&["ufw", "allow", "8080/tcp"]));
    assert_eq!(Firewall::Firewalld.allow_args(8080), s(&["firewall-cmd", "--add-port=8080/tcp"]));
    assert_eq!(
        Firewall::Nftables.allow_args(8080),
        s(&["nft", "add", "rule", "inet", "filter", "input", "tcp", "dport", "8080", "accept"])
    );
    assert_eq!(
        Firewall::Iptables.allow_args(1),
        s(&["iptables", "-A", "INPUT", "-p", "tcp", "--dport", "1", "-j", "ACCEPT"])
    );
    assert!(Firewall::NotDetected.allow_args(8080).is_empty());
}

#[test]
fn deny_commands() {
    assert_eq!(Firewall::Ufw.deny_args(8080), s(&["ufw", "delete", "allow", "8080/tcp"]));
    assert_eq!(Firewall::Firewalld.deny_args(65535), s(&["firewall-cmd", "--remove-port=65535/tcp"]));
    assert_eq!(Firewall::Nftables.deny_args(8080), s(&["sh", "-c", NFT_DELETE_8080]));
    assert_eq!(
        Firewall::Iptables.deny_args(0),
        s(&["iptables", "-D", "INPUT", "-p", "tcp", "--dport", "0", "-j", "ACCEPT"])
    );
    assert!(Firewall::NotDetected.deny_args(8080).is_empty());
}

#[test]
fn deny_names_the_rule_allow_added() {
    let allow = Firewall::Nftables.allow_args(4321);
    let deny = Firewall::Nftables.deny_args(4321);
    assert!(deny[2].contains(&allow[6..].join(" ")));
    let allow = Firewall::Iptables.allow_args(4321);
    let mut deny = Firewall::Iptables.deny_args(4321);
    deny[1] = "-A".to_string();
    assert_eq!(allow, deny);
}

#[test]
fn detection_asks_in_order() {
    match Firewall::detect(&vec![]) {
        Detection::Probe(c) => assert_eq!(c, s(&["systemctl", "is-active", "ufw"])),
        Detection::Found(_) => panic!("expected a probe"),
    }
    match Firewall::detect(&vec![false]) {
        Detection::Probe(c) => assert_eq!(c, s(&["systemctl", "is-active", "firewalld"])),
        Detection::Found(_) => panic!("expected a probe"),
    }
    match Firewall::detect(&vec![false, false]) {
        Detection::Probe(c) => assert_eq!(c, s(&["systemctl", "is-active", "nftables"])),
        Detection::Found(_) => panic!("expected a probe"),
    }
    match Firewall::detect(&vec![false, false, false]) {
        Detection::Probe(c) => assert_eq!(c, s(&["which", "iptables"])),
        Detection::Found(_) => panic!("expected a probe"),
    }
}

#[test]
fn detection_picks_the_first_success() {
    let found = |answers: Vec<bool>| match Firewall::detect(&answers) {
        Detection::Found(fw) => fw,
        Detection::Probe(_) => panic!("expected a result"),
    };
    assert_eq!(found(vec![true]), Firewall::Ufw);
    assert_eq!(found(vec![false, true]), Firewall::Firewalld);
    assert_eq!(found(vec![false, false, true]), Firewall::Nftables);
    assert_eq!(found(vec![false, false, false, true]), Firewall::Iptables);
    assert_eq!(found(vec![false, false, false, false]), Firewall::NotDetected);
    assert_eq!(found(vec![true, true, true, true]), Firewall::Ufw);
}

#[test]
fn shell_escaping() {
    assert_eq!(shell_escape_args(&s(&["ufw", "allow", "8080/tcp"])), "ufw allow 8080/tcp");
    assert_eq!(shell_escape_args(&s(&["echo", "a b"])), "echo 'a b'");
    assert_eq!(shell_escape_args(&s(&["x", "it's ok"])), "x 'it'\\''s ok'");
    assert_eq!(shell_escape_args(&s(&["a;b", "c&d", "e|f", "$g"])), "'a;b' 'c&d' 'e|f' '$g'");
    assert_eq!(shell_escape_args(&s(&["it's"])), "it's");
    assert_eq!(shell_escape_args(&Vec::new()), "");
}

#[test]
fn direct_commands() {
    assert_eq!(Firewall::Ufw.allow_port_direct_command(80), Some(s(&["ufw", "allow", "80/tcp"])));
    assert_eq!(Firewall::Ufw.deny_port_direct_command(80), Some(s(&["ufw", "delete", "allow", "80/tcp"])));
    assert_eq!(Firewall::NotDetected.allow_port_direct_command(80), None);
    assert_eq!(Firewall::NotDetected.deny_port_direct_command(80), None);
}

#[test]
fn pkexec_commands() {
    assert_eq!(
        Firewall::Firewalld.allow_port_command(80),
        Some(s(&["pkexec", "firewall-cmd", "--add-port=80/tcp"]))
    );
    assert_eq!(
        Firewall::Firewalld.deny_port_command(80),
        Some(s(&["pkexec", "firewall-cmd", "--remove-port=80/tcp"]))
    );
    assert_eq!(Firewall::NotDetected.allow_port_command(80), None);
    assert_eq!(Firewall::NotDetected.deny_port_command(80), None);
}

#[test]
fn swap_command() {
    assert_eq!(
        Firewall::Ufw.swap_port_command(Some(1000), 2000),
        Some(s(&["pkexec", "sh", "-c", "ufw delete allow 1000/tcp; ufw allow 2000/tcp"]))
    );
    assert_eq!(
        Firewall::Ufw.swap_port_command(Some(2000), 2000),
        Some(s(&["pkexec", "sh", "-c", "ufw allow 2000/tcp"]))
    );
    assert_eq!(
        Firewall::Ufw.swap_port_command(None, 2000),
        Some(s(&["pkexec", "sh", "-c", "ufw allow 2000/tcp"]))
    );
    assert_eq!(Firewall::NotDetected.swap_port_command(Some(1), 2), None);
    let nft = Firewall::Nftables.swap_port_command(Some(8080), 9090).unwrap();
    let expected = format!(
        "sh -c '{}'; nft add rule inet filter input tcp dport 9090 accept",
        NFT_DELETE_8080.replace('\'', "'\\''")
    );
    assert_eq!(nft[3], expected);
}
