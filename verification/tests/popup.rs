use cosmic_share_browser::applet::{Applet, DaemonStatus, Event};
use cosmic_share_browser::config::Config;
use cosmic_share_browser::discovery::Share;
use cosmic_share_browser::firewall::Firewall;
use cosmic_share_browser::popup::{Press, ServerSection, ShareList, Style};

fn applet(enabled: bool) -> Applet {
    Applet::new(Config {
        enabled,
        shared_dir: "/home/ann/Public".to_string(),
        service_name: "COSMIC-Share".to_string(),
        read_only: true,
    })
}

#[test]
fn checking_and_not_installed() {
    let a = applet(false);
    let p = a.build_popup_content();
    assert_eq!(p.server_title, "Share My Files");
    assert_eq!(p.client_title, "Network Shares");
    match p.server {
        ServerSection::Checking(m) => assert_eq!(m, "Checking service status..."),
        _ => panic!("expected the checking message"),
    }
    match p.shares {
        ShareList::Empty(m) => assert_eq!(m, "No shares discovered."),
        _ => panic!("expected the empty message"),
    }
    assert!(p.client_status.is_none());
    assert_eq!(p.scan_button.label, "Scan");
    assert_eq!(p.scan_button.press, Some(Press::Scan));
    let mut b = applet(false);
    b.update(Event::InitResult { daemon: DaemonStatus::NotInstalled, firewall: Firewall::Ufw, port: None });
    match b.build_popup_content().server {
        ServerSection::NotInstalled { message, dir, install } => {
            assert_eq!(message, "Service not installed.");
            assert_eq!(dir.label, None);
            assert_eq!(dir.placeholder, "Directory (e.g. ~/Public)");
            assert_eq!(dir.value, "/home/ann/Public");
            assert_eq!(install.label, "Install & Start Sharing Service");
            assert_eq!(install.style, Style::Suggested);
            assert_eq!(install.press, Some(Press::InstallAndStart));
        }
        _ => panic!("expected the install section"),
    }
}

#[test]
fn running_controls() {
    let mut a = applet(true);
    a.update(Event::InitResult { daemon: DaemonStatus::Running, firewall: Firewall::Ufw, port: Some(4000) });
    let p = a.build_popup_content();
    match p.server {
        ServerSection::Controls(c) => {
            assert_eq!(c.status_label, "● Running");
            assert_eq!(c.daemon_button.label, "Stop");
            assert_eq!(c.daemon_button.style, Style::Destructive);
            assert_eq!(c.enable_button.label, "Disable");
            assert_eq!(c.access_button.label, "Read-Only");
            assert_eq!(c.save_button.press, None);
            assert_eq!(c.dir.label, Some("Dir"));
            assert_eq!(c.dir.placeholder, "~/Public");
            assert_eq!(c.dir.value, "/home/ann/Public");
            assert_eq!(c.port_label, "Port 4000 · UFW");
            let fw = c.firewall_button.expect("firewall button");
            assert_eq!(fw.label, "Open Port");
            assert_eq!(fw.press, Some(Press::OpenFirewall));
        }
        _ => panic!("expected controls"),
    }
    assert_eq!(p.server_status, "Opening firewall port 4000...");
}

#[test]
fn stopped_controls() {
    let mut a = applet(false);
    a.update(Event::InitResult { daemon: DaemonStatus::Stopped, firewall: Firewall::NotDetected, port: None });
    a.update(Event::DirChanged("/x".to_string()));
    a.update(Event::ToggleReadOnly);
    match a.build_popup_content().server {
        ServerSection::Controls(c) => {
            assert_eq!(c.daemon_button.label, "Start");
            assert_eq!(c.enable_button.label, "Enable");
            assert_eq!(c.access_button.label, "Read-Write");
            assert_eq!(c.access_button.style, Style::Destructive);
            assert_eq!(c.save_button.press, Some(Press::SaveConfig));
            assert_eq!(c.dir.value, "/x");
            assert_eq!(c.port_label, "none detected");
            assert!(c.firewall_button.is_none());
        }
        _ => panic!("expected controls"),
    }
}

#[test]
fn share_rows() {
    let mut a = applet(true);
    a.update(Event::ScanComplete(vec![
        Share::new("nas.local".to_string(), 8080),
        Share::new("pc.local".to_string(), 9090),
    ]));
    a.update(Event::MountDone("dav://pc.local:9090/".to_string(), true));
    let p = a.build_popup_content();
    let rows = match p.shares {
        ShareList::Rows(rows) => rows,
        _ => panic!("expected rows"),
    };
    assert_eq!(rows.len(), 2);
    assert_eq!(rows[0].hostname, "nas.local");
    assert_eq!(rows[0].port_label, "port 8080");
    assert_eq!(rows[0].button.label, "Mount");
    assert_eq!(rows[1].button.label, "Unmount");
    assert_eq!(rows[1].button.press, Some(Press::Unmount));
    assert_eq!(p.client_status.as_deref(), Some("Mounted: dav://pc.local:9090/"));
}

#[test]
fn scanning_shows_an_empty_list_of_rows() {
    let mut a = applet(true);
    a.update(Event::Scan);
    let p = a.build_popup_content();
    assert_eq!(p.scan_button.label, "Scanning...");
    assert_eq!(p.scan_button.press, None);
    match p.shares {
        ShareList::Rows(rows) => assert!(rows.is_empty()),
        _ => panic!("expected rows while scanning"),
    }
}
