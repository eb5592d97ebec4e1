//! What the applet's popup shows for a state: which sections, which buttons
//! with which labels and looks, and what each button does when pressed.
use vstd::prelude::*;
use crate::applet::{Applet, AppletView, DaemonStatus, label_of};
use crate::discovery::{Share, ShareView, share_views};
use crate::firewall::{Firewall, name_of};
use crate::text::{contains_string, decimal, owned, push_decimal, string_views};

verus! {

/// How a button looks.
#[derive(Debug, Clone, Copy, PartialEq, Eq, Structural)]
pub enum Style {
    Standard,
    Suggested,
    Destructive,
}

/// What pressing a button asks for; `Mount` and `Unmount` act on the share
/// of the row the button is in.
#[derive(Debug, Clone, Copy, PartialEq, Eq, Structural)]
pub enum Press {
    InstallAndStart,
    StartDaemon,
    StopDaemon,
    ToggleEnabled,
    ToggleReadOnly,
    SaveConfig,
    OpenFirewall,
    CloseFirewall,
    Scan,
    Mount,
    Unmount,
}

/// A button; one that does nothing when pressed has no `press`.
#[derive(Debug, Clone, Copy)]
pub struct Button {
    pub label: &'static str,
    pub style: Style,
    pub press: Option<Press>,
}

pub open spec fn is_button(b: Button, label: Seq<char>, style: Style, press: Option<Press>) -> bool {
    b.label@ == label && b.style == style && b.press == press
}

/// The text field that holds the directory being edited; each edit is a
/// `DirChanged` event.
#[derive(Debug, Clone)]
pub struct DirField {
    /// The label in front of the field, if any.
    pub label: Option<&'static str>,
    /// What the field shows while empty.
    pub placeholder: &'static str,
    /// The field's content.
    pub value: String,
}

/// The controls of an installed daemon.
#[derive(Debug, Clone)]
pub struct Controls {
    pub status_label: &'static str,
    pub daemon_button: Button,
    pub enable_button: Button,
    pub access_button: Button,
    pub dir: DirField,
    pub save_button: Button,
    pub port_label: String,
    pub firewall_button: Option<Button>,
}

/// The sharing part of the popup.
#[derive(Debug, Clone)]
pub enum ServerSection {
    /// The daemon's status is not known yet: a message saying so.
    Checking(&'static str),
    /// The daemon is not installed: a message, a directory field and an install button.
    NotInstalled { message: &'static str, dir: DirField, install: Button },
    Controls(Controls),
}

/// One discovered share.
#[derive(Debug, Clone)]
pub struct ShareRow {
    pub hostname: String,
    pub port_label: String,
    pub uri: String,
    pub button: Button,
}

/// The list of discovered shares.
#[derive(Debug, Clone)]
pub enum ShareList {
    /// No share is known and no scan is running: a message saying so.
    Empty(&'static str),
    Rows(Vec<ShareRow>),
}

/// The popup's content: the sharing part under its title, the sharing
/// status line, a divider, then the shares part under its title.
#[derive(Debug, Clone)]
pub struct Popup {
    pub server_title: &'static str,
    pub server: ServerSection,
    pub server_status: String,
    pub client_title: &'static str,
    pub scan_button: Button,
    pub shares: ShareList,
    /// The client status line, when there is one.
    pub client_status: Option<String>,
}

// ---------------------------------------------------------------------------
// Specification
// ---------------------------------------------------------------------------

pub open spec fn daemon_button_ok(b: Button, running: bool) -> bool {
    if running {
        is_button(b, "Stop"@, Style::Destructive, Some(Press::StopDaemon))
    } else {
        is_button(b, "Start"@, Style::Standard, Some(Press::StartDaemon))
    }
}

pub open spec fn enable_button_ok(b: Button, enabled: bool) -> bool {
    if enabled {
        is_button(b, "Disable"@, Style::Destructive, Some(Press::ToggleEnabled))
    } else {
        is_button(b, "Enable"@, Style::Suggested, Some(Press::ToggleEnabled))
    }
}

/// Write access shows as a warning.
pub open spec fn access_button_ok(b: Button, read_only: bool) -> bool {
    if read_only {
        is_button(b, "Read-Only"@, Style::Standard, Some(Press::ToggleReadOnly))
    } else {
        is_button(b, "Read-Write"@, Style::Destructive, Some(Press::ToggleReadOnly))
    }
}

/// Saving is offered only when the directory was edited.
pub open spec fn save_button_ok(b: Button, dirty: bool) -> bool {
    if dirty {
        is_button(b, "Save & Apply"@, Style::Suggested, Some(Press::SaveConfig))
    } else {
        is_button(b, "Save & Apply"@, Style::Standard, None)
    }
}

pub open spec fn port_label_of(s: AppletView) -> Seq<char> {
    match s.daemon_port {
        Some(p) => "Port "@ + decimal(p as nat) + " · "@ + name_of(s.firewall),
        None => if s.daemon_status == DaemonStatus::Running {
            "Port pending · "@ + name_of(s.firewall)
        } else {
            name_of(s.firewall)
        },
    }
}

/// The firewall button appears while the daemon runs on a known port behind
/// a detected firewall; it closes the port when it is open, else opens it.
pub open spec fn firewall_button_ok(b: Option<Button>, s: AppletView) -> bool {
    if s.daemon_status == DaemonStatus::Running && s.daemon_port is Some && s.firewall
        != Firewall::NotDetected {
        b is Some && if s.firewall_open {
            is_button(b->0, "Close Port"@, Style::Destructive, Some(Press::CloseFirewall))
        } else {
            is_button(b->0, "Open Port"@, Style::Suggested, Some(Press::OpenFirewall))
        }
    } else {
        b is None
    }
}

pub open spec fn controls_ok(c: Controls, s: AppletView) -> bool {
    let running = s.daemon_status == DaemonStatus::Running;
    &&& c.status_label@ == label_of(s.daemon_status)
    &&& daemon_button_ok(c.daemon_button, running)
    &&& enable_button_ok(c.enable_button, s.config.enabled)
    &&& access_button_ok(c.access_button, s.config.read_only)
    &&& c.dir.label == Some("Dir") && c.dir.placeholder@ == "~/Public"@ && c.dir.value@
        == s.dir_input
    &&& save_button_ok(c.save_button, s.config_dirty)
    &&& c.port_label@ == port_label_of(s)
    &&& firewall_button_ok(c.firewall_button, s)
}

pub open spec fn server_section_ok(sec: ServerSection, s: AppletView) -> bool {
    match s.daemon_status {
        DaemonStatus::Unknown => sec matches ServerSection::Checking(m) && m@
            == "Checking service status..."@,
        DaemonStatus::NotInstalled => sec matches ServerSection::NotInstalled { message, dir, install }
            && message@ == "Service not installed."@ && dir.label is None && dir.placeholder@
            == "Directory (e.g. ~/Public)"@ && dir.value@ == s.dir_input && is_button(
            install,
            "Install & Start Sharing Service"@,
            Style::Suggested,
            Some(Press::InstallAndStart),
        ),
        _ => sec matches ServerSection::Controls(c) && controls_ok(c, s),
    }
}

pub open spec fn scan_button_ok(b: Button, scanning: bool) -> bool {
    if scanning {
        is_button(b, "Scanning..."@, Style::Standard, None)
    } else {
        is_button(b, "Scan"@, Style::Standard, Some(Press::Scan))
    }
}

/// A share's row: its host, its port, and a button that unmounts it when it
/// is mounted and mounts it otherwise.
pub open spec fn row_ok(row: ShareRow, share: ShareView, mounted: Set<Seq<char>>) -> bool {
    &&& row.hostname@ == share.hostname
    &&& row.port_label@ == "port "@ + decimal(share.port as nat)
    &&& row.uri@ == share.uri
    &&& if mounted.contains(share.uri) {
        is_button(row.button, "Unmount"@, Style::Destructive, Some(Press::Unmount))
    } else {
        is_button(row.button, "Mount"@, Style::Suggested, Some(Press::Mount))
    }
}

pub open spec fn popup_ok(p: Popup, s: AppletView) -> bool {
    &&& p.server_title@ == "Share My Files"@
    &&& server_section_ok(p.server, s)
    &&& p.server_status@ == s.server_status
    &&& p.client_title@ == "Network Shares"@
    &&& scan_button_ok(p.scan_button, s.scanning)
    &&& if s.shares.len() == 0 && !s.scanning {
        p.shares matches ShareList::Empty(m) && m@ == "No shares discovered."@
    } else {
        p.shares matches ShareList::Rows(rows) && rows@.len() == s.shares.len() && forall|i: int|
            0 <= i < s.shares.len() ==> #[trigger] row_ok(rows@[i], s.shares[i], s.mounted)
    }
    &&& if s.client_status.len() == 0 {
        p.client_status is None
    } else {
        p.client_status is Some && p.client_status->0@ == s.client_status
    }
}

// ---------------------------------------------------------------------------
// Laws
// ---------------------------------------------------------------------------

/// While the daemon runs on a known port behind a detected firewall, the
/// popup's controls carry a firewall button that closes the port when it is
/// open and opens it when it is closed; otherwise there is no such button.
pub proof fn lemma_firewall_button_follows_port(p: Popup, s: AppletView)
    requires
        popup_ok(p, s),
        s.daemon_status == DaemonStatus::Running,
    ensures
        p.server is Controls,
        ({
            let fb = p.server->Controls_0.firewall_button;
            if s.daemon_port is Some && s.firewall != Firewall::NotDetected {
                &&& fb is Some
                &&& s.firewall_open ==> fb->0.label@ == "Close Port"@ && fb->0.style
                    == Style::Destructive && fb->0.press == Some(Press::CloseFirewall)
                &&& !s.firewall_open ==> fb->0.label@ == "Open Port"@ && fb->0.style
                    == Style::Suggested && fb->0.press == Some(Press::OpenFirewall)
            } else {
                fb is None
            }
        }),
{
}

// ---------------------------------------------------------------------------
// Executable functions
// ---------------------------------------------------------------------------

fn button(label: &'static str, style: Style, press: Option<Press>) -> (b: Button)
    ensures
        is_button(b, label@, style, press),
{
    Button { label, style, press }
}

fn port_label(a: &Applet) -> (r: String)
    ensures
        r@ == port_label_of(a@),
{
    match a.daemon_port {
        Some(p) => {
            let mut t = owned("Port ");
            push_decimal(&mut t, p as u64);
            t.append(" · ");
            t.append(a.firewall.name());
            t
        },
        None => {
            if a.daemon_status == DaemonStatus::Running {
                let mut t = owned("Port pending · ");
                t.append(a.firewall.name());
                t
            } else {
                owned(a.firewall.name())
            }
        },
    }
}

fn controls(a: &Applet) -> (c: Controls)
    ensures
        controls_ok(c, a@),
{
    let running = a.daemon_status == DaemonStatus::Running;
    let daemon_button = if running {
        button("Stop", Style::Destructive, Some(Press::StopDaemon))
    } else {
        button("Start", Style::Standard, Some(Press::StartDaemon))
    };
    let enable_button = if a.config.enabled {
        button("Disable", Style::Destructive, Some(Press::ToggleEnabled))
    } else {
        button("Enable", Style::Suggested, Some(Press::ToggleEnabled))
    };
    let access_button = if a.config.read_only {
        button("Read-Only", Style::Standard, Some(Press::ToggleReadOnly))
    } else {
        button("Read-Write", Style::Destructive, Some(Press::ToggleReadOnly))
    };
    let save_button = if a.config_dirty {
        button("Save & Apply", Style::Suggested, Some(Press::SaveConfig))
    } else {
        button("Save & Apply", Style::Standard, None)
    };
    let firewall_button = if running && a.daemon_port.is_some() && a.firewall
        != Firewall::NotDetected {
        if a.firewall_open {
            Some(button("Close Port", Style::Destructive, Some(Press::CloseFirewall)))
        } else {
            Some(button("Open Port", Style::Suggested, Some(Press::OpenFirewall)))
        }
    } else {
        None
    };
    Controls {
        status_label: a.daemon_status.label(),
        daemon_button,
        enable_button,
        access_button,
        dir: DirField { label: Some("Dir"), placeholder: "~/Public", value: a.dir_input.clone() },
        save_button,
        port_label: port_label(a),
        firewall_button,
    }
}

fn share_row(share: &Share, mounted: &Vec<String>) -> (row: ShareRow)
    ensures
        row_ok(row, share@, string_views(mounted@).to_set()),
{
    let mut port_label = owned("port ");
    push_decimal(&mut port_label, share.port as u64);
    let is_mounted = contains_string(mounted, &share.uri);
    let b = if is_mounted {
        button("Unmount", Style::Destructive, Some(Press::Unmount))
    } else {
        button("Mount", Style::Suggested, Some(Press::Mount))
    };
    ShareRow {
        hostname: share.hostname.clone(),
        port_label,
        uri: share.uri.clone(),
        button: b,
    }
}

impl Applet {
    /// The popup's content for the current state.
    pub fn build_popup_content(&self) -> (p: Popup)
        ensures
            popup_ok(p, self@),
    {
        let server = match self.daemon_status {
            DaemonStatus::Unknown => ServerSection::Checking("Checking service status..."),
            DaemonStatus::NotInstalled => ServerSection::NotInstalled {
                message: "Service not installed.",
                dir: DirField {
                    label: None,
                    placeholder: "Directory (e.g. ~/Public)",
                    value: self.dir_input.clone(),
                },
                install: button(
                    "Install & Start Sharing Service",
                    Style::Suggested,
                    Some(Press::InstallAndStart),
                ),
            },
            _ => ServerSection::Controls(controls(self)),
        };
        let scan_button = if self.scanning {
            button("Scanning...", Style::Standard, None)
        } else {
            button("Scan", Style::Standard, Some(Press::Scan))
        };
        let shares = if self.shares.len() == 0 && !self.scanning {
            ShareList::Empty("No shares discovered.")
        } else {
            let mut rows: Vec<ShareRow> = Vec::new();
            let mut i: usize = 0;
            while i < self.shares.len()
                invariant
                    i <= self.shares.len(),
                    rows@.len() == i,
                    forall|j: int|
                        0 <= j < i ==> #[trigger] row_ok(
                            rows@[j],
                            share_views(self.shares@)[j],
                            string_views(self.mounted@).to_set(),
                        ),
                decreases self.shares.len() - i,
            {
                rows.push(share_row(&self.shares[i], &self.mounted));
                i += 1;
            }
            ShareList::Rows(rows)
        };
        let client_status = if self.client_status.as_str().is_empty() {
            None
        } else {
            Some(self.client_status.clone())
        };
        Popup {
            server_title: "Share My Files",
            server,
            server_status: self.server_status.clone(),
            client_title: "Network Shares",
            scan_button,
            shares,
            client_status,
        }
    }
}

} // verus!
