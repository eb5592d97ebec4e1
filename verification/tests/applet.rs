use cosmic_share_browser::applet::{
    check_daemon_status, systemctl_user, Applet, DaemonStatus, Effect, Event, Task, UnitCommand,
};
use cosmic_share_browser::config::Config;
use cosmic_share_browser::discovery::Share;
use cosmic_share_browser::firewall::Firewall;

fn config(enabled: bool) -> Config {
    Config {
        enabled,
        shared_dir: "/home/ann/Public".to_string(),
        service_name: "COSMIC-Share".to_string(),
        read_only: true,
    }
}

#[test]
fn labels() {
    assert_eq!(DaemonStatus::Unknown.label(), "Checking...");
    assert_eq!(DaemonStatus::NotInstalled.label(), "Not installed");
    assert_eq!(DaemonStatus::Stopped.label(), "○ Stopped");
    assert_eq!(DaemonStatus::Running.label(), "● Running");
}

#[test]
fn daemon_status_checks() {
    assert_eq!(check_daemon_status(false, true), DaemonStatus::NotInstalled);
    assert_eq!(check_daemon_status(true, true), DaemonStatus::Running);
    assert_eq!(check_daemon_status(true, false), DaemonStatus::Stopped);
}

#[test]
fn systemctl_commands() {
    assert_eq!(
        systemctl_user(UnitCommand::IsActive),
        vec!["systemctl", "--user", "is-active", "cosmic-share-daemon"]
    );
    assert_eq!(systemctl_user(UnitCommand::ReloadUnits), vec!["systemctl", "--user", "daemon-reload"]);
    assert_eq!(
        systemctl_user(UnitCommand::EnableNow),
        vec!["systemctl", "--user", "enable", "--now", "cosmic-share-daemon"]
    );
}

#[test]
fn initial_state() {
    let mut a = Applet::new(config(true));
    assert_eq!(a.dir_input, "/home/ann/Public");
    assert_eq!(a.server_status, "Checking...");
    assert_eq!(a.icon_name, "network-server-symbolic");
    let r = a.update(Event::Init);
    assert!(matches!(r.task, Task::CheckStatus));
}

#[test]
fn startup_opens_the_port() {
    let mut a = Applet::new(config(true));
    let r = a.update(Event::InitResult {
        daemon: DaemonStatus::Running,
        firewall: Firewall::Firewalld,
        port: Some(40000),
    });
    assert!(matches!(r.task, Task::SwapPort { port: 40000, initial: true }));
    assert_eq!(r.effect, Effect::Nothing);
    assert_eq!(a.server_status, "Opening firewall port 40000...");
    assert_eq!(a.icon_name, "folder-remote-symbolic");
    let r = a.update(Event::InitFirewallDone(40000, true));
    assert_eq!(r.effect, Effect::WriteLastPort(40000));
    assert!(matches!(r.task, Task::Discover));
    assert!(a.firewall_open);
    assert_eq!(a.server_status, "Port 40000 opened.");
}

#[test]
fn startup_without_firewall_scans() {
    let mut a = Applet::new(config(true));
    let r = a.update(Event::InitResult {
        daemon: DaemonStatus::Running,
        firewall: Firewall::NotDetected,
        port: Some(40000),
    });
    assert!(matches!(r.task, Task::Discover));
    assert_eq!(a.server_status, "Sharing /home/ann/Public on port 40000 (read-only). Firewall: none detected.");
}

#[test]
fn server_status_lines() {
    let mut a = Applet::new(config(true));
    a.update(Event::InitResult { daemon: DaemonStatus::Running, firewall: Firewall::Ufw, port: None });
    assert_eq!(a.server_status, "Sharing /home/ann/Public (port pending, read-only). Firewall: UFW.");
    let mut b = Applet::new(config(false));
    b.update(Event::InitResult { daemon: DaemonStatus::Running, firewall: Firewall::Ufw, port: None });
    assert_eq!(b.server_status, "Daemon running, sharing disabled.");
    assert_eq!(b.icon_name, "network-server-symbolic");
    b.update(Event::InitResult { daemon: DaemonStatus::NotInstalled, firewall: Firewall::Ufw, port: None });
    assert_eq!(b.server_status, "Service not installed.");
    b.update(Event::DaemonStopped(true));
    assert_eq!(b.server_status, "Daemon stopped.");
}

#[test]
fn typed_directory_is_saved() {
    let mut a = Applet::new(config(true));
    a.update(Event::DirChanged("/srv/x".to_string()));
    assert!(a.config_dirty);
    let r = a.update(Event::SaveConfig);
    assert!(matches!(r.task, Task::SaveAndRestart));
    assert_eq!(a.config.shared_dir, "/srv/x");
    assert_eq!(a.server_status, "Applying changes...");
    let r = a.update(Event::ConfigSaved);
    assert!(!a.config_dirty);
    assert_eq!(a.daemon_port, None);
    assert!(matches!(r.task, Task::ReadPortLater { seconds: 3, ready: true }));
}

#[test]
fn access_mode_toggles() {
    let mut a = Applet::new(config(true));
    a.update(Event::ToggleReadOnly);
    assert!(!a.config.read_only);
    assert_eq!(a.server_status, "Switching to read-write...");
    a.update(Event::ToggleReadOnly);
    assert!(a.config.read_only);
    assert_eq!(a.server_status, "Switching to read-only...");
}

#[test]
fn enabling() {
    let mut a = Applet::new(config(false));
    let r = a.update(Event::ToggleEnabled);
    assert!(a.config.enabled);
    assert!(matches!(r.task, Task::SaveThenToggled(true)));
    assert_eq!(a.server_status, "Enabling sharing...");
    let r = a.update(Event::ToggleResult(true));
    assert!(matches!(r.task, Task::ReadPortLater { seconds: 4, ready: false }));
    assert_eq!(a.server_status, "Sharing enabled. Daemon will start within 5s.");
    a.update(Event::ToggleEnabled);
    assert_eq!(a.server_status, "Disabling sharing...");
}

#[test]
fn install() {
    let mut a = Applet::new(config(false));
    let r = a.update(Event::InstallAndStart);
    assert!(matches!(r.task, Task::SaveAndInstall));
    let r = a.update(Event::InstallResult(true));
    assert_eq!(r.effect, Effect::SaveConfig);
    assert!(a.config.enabled);
    assert_eq!(a.daemon_status, DaemonStatus::Running);
    assert!(matches!(r.task, Task::ReadPortLater { seconds: 2, ready: true }));
    let mut b = Applet::new(config(false));
    let r = b.update(Event::InstallResult(false));
    assert_eq!(r.effect, Effect::Nothing);
    assert_eq!(b.server_status, "Install failed. Is cosmic-share-daemon in ~/.local/bin/?");
}

#[test]
fn daemon_start_and_stop() {
    let mut a = Applet::new(config(true));
    assert!(matches!(a.update(Event::StartDaemon).task, Task::StartDaemon));
    assert_eq!(a.server_status, "Starting daemon...");
    let r = a.update(Event::DaemonStarted(true));
    assert!(matches!(r.task, Task::ReadPortLater { seconds: 2, ready: false }));
    a.update(Event::PortRead(Some(5000)));
    assert_eq!(a.daemon_port, Some(5000));
    assert!(matches!(a.update(Event::StopDaemon).task, Task::StopDaemon));
    a.update(Event::DaemonStopped(true));
    assert_eq!(a.daemon_port, None);
    assert!(!a.firewall_open);
    assert_eq!(a.daemon_status, DaemonStatus::Stopped);
    a.update(Event::DaemonStarted(false));
    assert_eq!(a.server_status, "Failed to start daemon.");
    a.update(Event::DaemonStopped(false));
    assert_eq!(a.server_status, "Failed to stop daemon.");
}

#[test]
fn restarted_daemon_port() {
    let mut a = Applet::new(config(true));
    let r = a.update(Event::ConfigPortReady(Some(7000)));
    assert!(matches!(r.task, Task::SwapPort { port: 7000, initial: false }));
    assert_eq!(a.daemon_status, DaemonStatus::Running);
    let r = a.update(Event::ConfigPortReady(None));
    assert!(matches!(r.task, Task::Idle));
    assert_eq!(a.server_status, "Daemon restarted but port not yet available.");
}

#[test]
fn firewall_buttons() {
    let mut a = Applet::new(config(true));
    let r = a.update(Event::OpenFirewall);
    assert!(matches!(r.task, Task::Idle));
    assert_eq!(a.server_status, "No port known — is the daemon running?");
    let r = a.update(Event::CloseFirewall);
    assert!(matches!(r.task, Task::Idle));
    a.update(Event::PortRead(Some(6000)));
    assert!(matches!(a.update(Event::OpenFirewall).task, Task::OpenPort(6000)));
    let r = a.update(Event::FirewallResult(true, true));
    assert_eq!(r.effect, Effect::WriteLastPort(6000));
    assert_eq!(a.server_status, "Firewall port 6000 opened.");
    assert!(matches!(a.update(Event::CloseFirewall).task, Task::ClosePort(6000)));
    assert_eq!(a.server_status, "Closing firewall port 6000...");
    let r = a.update(Event::FirewallResult(false, true));
    assert_eq!(r.effect, Effect::ClearLastPort);
    assert!(!a.firewall_open);
    assert_eq!(a.server_status, "Firewall port closed.");
    let r = a.update(Event::FirewallResult(true, false));
    assert_eq!(r.effect, Effect::Nothing);
    assert_eq!(a.server_status, "Firewall change failed — check permissions.");
}

#[test]
fn opened_without_known_port() {
    let mut a = Applet::new(config(true));
    let r = a.update(Event::FirewallResult(true, true));
    assert_eq!(r.effect, Effect::Nothing);
    assert_eq!(a.server_status, "Firewall port 0 opened.");
}

#[test]
fn scanning_and_mounting() {
    let mut a = Applet::new(config(true));
    assert!(matches!(a.update(Event::Scan).task, Task::Discover));
    assert!(a.scanning);
    assert_eq!(a.client_status, "Scanning...");
    let r = a.update(Event::ScanComplete(vec![Share::new("nas.local".to_string(), 8080)]));
    assert!(matches!(r.task, Task::ListMounts));
    assert!(!a.scanning);
    assert_eq!(a.client_status, "Found 1 share(s).");
    a.update(Event::ScanComplete(Vec::new()));
    assert_eq!(a.client_status, "No shares found.");
    let uri = "dav://nas.local:8080/".to_string();
    match a.update(Event::Mount(uri.clone())).task {
        Task::Mount(u) => assert_eq!(u, uri),
        _ => panic!("expected a mount"),
    }
    assert_eq!(a.client_status, "Mounting dav://nas.local:8080/...");
    a.update(Event::MountDone(uri.clone(), true));
    assert_eq!(a.mounted, vec![uri.clone()]);
    assert_eq!(a.client_status, "Mounted: dav://nas.local:8080/");
    a.update(Event::MountDone(uri.clone(), true));
    assert_eq!(a.mounted, vec![uri.clone()]);
    match a.update(Event::Unmount(uri.clone())).task {
        Task::Unmount(u) => assert_eq!(u, uri),
        _ => panic!("expected an unmount"),
    }
    a.update(Event::UnmountDone(uri.clone(), true));
    assert!(a.mounted.is_empty());
    assert_eq!(a.client_status, "Unmounted: dav://nas.local:8080/");
    a.update(Event::MountDone(uri.clone(), false));
    assert!(a.mounted.is_empty());
    assert_eq!(a.client_status, "Failed to mount: dav://nas.local:8080/");
    a.update(Event::UnmountDone(uri.clone(), false));
    assert_eq!(a.client_status, "Failed to unmount: dav://nas.local:8080/");
    a.update(Event::MountedRefreshed(vec![uri.clone()]));
    assert_eq!(a.mounted, vec![uri]);
}
