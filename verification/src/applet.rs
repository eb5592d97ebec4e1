//! The panel applet's state and how it reacts to what the user does and to
//! what its background work reports. The reaction to each event is a new
//! state, at most one immediate effect, and at most one piece of background
//! work whose outcome comes back as a further event.
use vstd::prelude::*;
use crate::config::{Config, ConfigView};
use crate::discovery::{Share, ShareView, share_views};
use crate::firewall::{Firewall, name_of};
use crate::text::{contains_string, decimal, owned, push_decimal, string_views};

verus! {

/// What is known of the sharing daemon's systemd unit.
#[derive(Debug, Clone, Copy, PartialEq, Eq, Structural)]
pub enum DaemonStatus {
    Unknown,
    NotInstalled,
    Stopped,
    Running,
}

pub open spec fn label_of(s: DaemonStatus) -> Seq<char> {
    match s {
        DaemonStatus::Unknown => "Checking..."@,
        DaemonStatus::NotInstalled => "Not installed"@,
        DaemonStatus::Stopped => "○ Stopped"@,
        DaemonStatus::Running => "● Running"@,
    }
}

impl DaemonStatus {
    /// The text shown beside the daemon controls.
    pub fn label(&self) -> (r: &'static str)
        ensures
            r@ == label_of(*self),
    {
        match self {
            DaemonStatus::Unknown => "Checking...",
            DaemonStatus::NotInstalled => "Not installed",
            DaemonStatus::Stopped => "○ Stopped",
            DaemonStatus::Running => "● Running",
        }
    }
}

/// The daemon's status from whether its unit file exists and, when it does,
/// whether systemd reports the unit active.
pub fn check_daemon_status(installed: bool, active: bool) -> (r: DaemonStatus)
    ensures
        r == if !installed {
            DaemonStatus::NotInstalled
        } else if active {
            DaemonStatus::Running
        } else {
            DaemonStatus::Stopped
        },
{
    if !installed {
        DaemonStatus::NotInstalled
    } else if active {
        DaemonStatus::Running
    } else {
        DaemonStatus::Stopped
    }
}

/// The `systemctl --user` requests the applet makes of the daemon's unit.
#[derive(Debug, Clone, Copy, PartialEq, Eq, Structural)]
pub enum UnitCommand {
    IsActive,
    Start,
    Stop,
    Restart,
    ReloadUnits,
    EnableNow,
}

pub open spec fn unit_command_of(c: UnitCommand) -> Seq<Seq<char>> {
    seq!["systemctl"@, "--user"@] + match c {
        UnitCommand::IsActive => seq!["is-active"@, "cosmic-share-daemon"@],
        UnitCommand::Start => seq!["start"@, "cosmic-share-daemon"@],
        UnitCommand::Stop => seq!["stop"@, "cosmic-share-daemon"@],
        UnitCommand::Restart => seq!["restart"@, "cosmic-share-daemon"@],
        UnitCommand::ReloadUnits => seq!["daemon-reload"@],
        UnitCommand::EnableNow => seq!["enable"@, "--now"@, "cosmic-share-daemon"@],
    }
}

/// The command line of a `systemctl --user` request.
pub fn systemctl_user(c: UnitCommand) -> (r: Vec<String>)
    ensures
        string_views(r@) == unit_command_of(c),
{
    let mut r: Vec<String> = Vec::new();
    r.push(owned("systemctl"));
    r.push(owned("--user"));
    match c {
        UnitCommand::IsActive => {
            r.push(owned("is-active"));
            r.push(owned("cosmic-share-daemon"));
        },
        UnitCommand::Start => {
            r.push(owned("start"));
            r.push(owned("cosmic-share-daemon"));
        },
        UnitCommand::Stop => {
            r.push(owned("stop"));
            r.push(owned("cosmic-share-daemon"));
        },
        UnitCommand::Restart => {
            r.push(owned("restart"));
            r.push(owned("cosmic-share-daemon"));
        },
        UnitCommand::ReloadUnits => {
            r.push(owned("daemon-reload"));
        },
        UnitCommand::EnableNow => {
            r.push(owned("enable"));
            r.push(owned("--now"));
            r.push(owned("cosmic-share-daemon"));
        },
    }
    assert(string_views(r@) =~= unit_command_of(c));
    r
}

// ---------------------------------------------------------------------------
// State, events, reactions
// ---------------------------------------------------------------------------

/// The applet's state (the popup window itself is the toolkit's business).
pub struct Applet {
    pub config: Config,
    pub dir_input: String,
    pub config_dirty: bool,
    pub daemon_status: DaemonStatus,
    pub daemon_port: Option<u16>,
    pub firewall: Firewall,
    pub firewall_open: bool,
    pub server_status: String,
    pub shares: Vec<Share>,
    pub mounted: Vec<String>,
    pub scanning: bool,
    pub client_status: String,
    pub icon_name: String,
}

#[verifier::ext_equal]
pub struct AppletView {
    pub config: ConfigView,
    pub dir_input: Seq<char>,
    pub config_dirty: bool,
    pub daemon_status: DaemonStatus,
    pub daemon_port: Option<u16>,
    pub firewall: Firewall,
    pub firewall_open: bool,
    pub server_status: Seq<char>,
    pub shares: Seq<ShareView>,
    pub mounted: Set<Seq<char>>,
    pub scanning: bool,
    pub client_status: Seq<char>,
    pub icon_name: Seq<char>,
}

impl View for Applet {
    type V = AppletView;

    open spec fn view(&self) -> AppletView {
        AppletView {
            config: self.config@,
            dir_input: self.dir_input@,
            config_dirty: self.config_dirty,
            daemon_status: self.daemon_status,
            daemon_port: self.daemon_port,
            firewall: self.firewall,
            firewall_open: self.firewall_open,
            server_status: self.server_status@,
            shares: share_views(self.shares@),
            mounted: string_views(self.mounted@).to_set(),
            scanning: self.scanning,
            client_status: self.client_status@,
            icon_name: self.icon_name@,
        }
    }
}

/// What the applet is told: a user action or the outcome of background work.
#[derive(Debug, Clone)]
pub enum Event {
    Init,
    InitResult { daemon: DaemonStatus, firewall: Firewall, port: Option<u16> },
    DirChanged(String),
    SaveConfig,
    ConfigSaved,
    ToggleReadOnly,
    InstallAndStart,
    InstallResult(bool),
    ToggleEnabled,
    ToggleResult(bool),
    StartDaemon,
    StopDaemon,
    DaemonStarted(bool),
    DaemonStopped(bool),
    PortRead(Option<u16>),
    ConfigPortReady(Option<u16>),
    InitFirewallDone(u16, bool),
    OpenFirewall,
    CloseFirewall,
    FirewallResult(bool, bool),
    Scan,
    ScanComplete(Vec<Share>),
    MountedRefreshed(Vec<String>),
    Mount(String),
    Unmount(String),
    MountDone(String, bool),
    UnmountDone(String, bool),
}

/// What is done at once, before the reaction returns.
#[derive(Debug, Clone, Copy, PartialEq, Eq, Structural)]
pub enum Effect {
    Nothing,
    /// Store the configuration of the new state.
    SaveConfig,
    /// Remember this port as the last one opened in the firewall.
    WriteLastPort(u16),
    /// Forget the last port opened.
    ClearLastPort,
}

/// Background work, and the event that reports its outcome.
#[derive(Debug, Clone)]
pub enum Task {
    Idle,
    /// Find the daemon's status, the firewall and the daemon's port:
    /// `InitResult`.
    CheckStatus,
    /// Look for shares on the network: `ScanComplete`.
    Discover,
    /// Close the last port opened and open `port` in one privileged command:
    /// `InitFirewallDone(port, ok)` when `initial`, else `FirewallResult(true, ok)`.
    SwapPort { port: u16, initial: bool },
    /// Store the configuration of the new state and restart the daemon: `ConfigSaved`.
    SaveAndRestart,
    /// Store the configuration of the new state: `ConfigSaved`.
    SaveThenSaved,
    /// Store the configuration of the new state: `ToggleResult(enabled)`.
    SaveThenToggled(bool),
    /// Store the configuration of the new state and install the daemon's
    /// unit: `InstallResult(ok)`.
    SaveAndInstall,
    /// Wait, then read the daemon's port file: `ConfigPortReady` when
    /// `ready`, else `PortRead`.
    ReadPortLater { seconds: u64, ready: bool },
    /// `DaemonStarted(ok)`.
    StartDaemon,
    /// `DaemonStopped(ok)`.
    StopDaemon,
    /// Open the port through `pkexec`: `FirewallResult(true, ok)`.
    OpenPort(u16),
    /// Close the port through `pkexec`: `FirewallResult(false, ok)`.
    ClosePort(u16),
    /// List the mounted shares: `MountedRefreshed`.
    ListMounts,
    /// `MountDone(uri, ok)`.
    Mount(String),
    /// `UnmountDone(uri, ok)`.
    Unmount(String),
}

pub enum TaskView {
    Idle,
    CheckStatus,
    Discover,
    SwapPort { port: u16, initial: bool },
    SaveAndRestart,
    SaveThenSaved,
    SaveThenToggled(bool),
    SaveAndInstall,
    ReadPortLater { seconds: u64, ready: bool },
    StartDaemon,
    StopDaemon,
    OpenPort(u16),
    ClosePort(u16),
    ListMounts,
    Mount(Seq<char>),
    Unmount(Seq<char>),
}

pub open spec fn task_view(t: Task) -> TaskView {
    match t {
        Task::Idle => TaskView::Idle,
        Task::CheckStatus => TaskView::CheckStatus,
        Task::Discover => TaskView::Discover,
        Task::SwapPort { port, initial } => TaskView::SwapPort { port, initial },
        Task::SaveAndRestart => TaskView::SaveAndRestart,
        Task::SaveThenSaved => TaskView::SaveThenSaved,
        Task::SaveThenToggled(b) => TaskView::SaveThenToggled(b),
        Task::SaveAndInstall => TaskView::SaveAndInstall,
        Task::ReadPortLater { seconds, ready } => TaskView::ReadPortLater { seconds, ready },
        Task::StartDaemon => TaskView::StartDaemon,
        Task::StopDaemon => TaskView::StopDaemon,
        Task::OpenPort(p) => TaskView::OpenPort(p),
        Task::ClosePort(p) => TaskView::ClosePort(p),
        Task::ListMounts => TaskView::ListMounts,
        Task::Mount(u) => TaskView::Mount(u@),
        Task::Unmount(u) => TaskView::Unmount(u@),
    }
}

/// The reaction to one event.
#[derive(Debug, Clone)]
pub struct Reaction {
    pub effect: Effect,
    pub task: Task,
}

// ---------------------------------------------------------------------------
// Specification of the reactions
// ---------------------------------------------------------------------------

pub open spec fn mode_of(read_only: bool) -> Seq<char> {
    if read_only {
        "read-only"@
    } else {
        "read-write"@
    }
}

/// The panel icon: a remote folder while sharing, a server otherwise.
pub open spec fn icon_of(status: DaemonStatus, enabled: bool) -> Seq<char> {
    if status == DaemonStatus::Running && enabled {
        "folder-remote-symbolic"@
    } else {
        "network-server-symbolic"@
    }
}

/// The line that describes the sharing side.
pub open spec fn server_status_of(s: AppletView) -> Seq<char> {
    match s.daemon_status {
        DaemonStatus::Running => if s.config.enabled {
            match s.daemon_port {
                Some(port) => "Sharing "@ + s.config.shared_dir + " on port "@ + decimal(
                    port as nat,
                ) + " ("@ + mode_of(s.config.read_only) + "). Firewall: "@ + name_of(s.firewall)
                    + "."@,
                None => "Sharing "@ + s.config.shared_dir + " (port pending, "@ + mode_of(
                    s.config.read_only,
                ) + "). Firewall: "@ + name_of(s.firewall) + "."@,
            }
        } else {
            "Daemon running, sharing disabled."@
        },
        DaemonStatus::Stopped => "Daemon stopped."@,
        DaemonStatus::NotInstalled => "Service not installed."@,
        DaemonStatus::Unknown => "Checking..."@,
    }
}

pub open spec fn with_icon(s: AppletView) -> AppletView {
    AppletView { icon_name: icon_of(s.daemon_status, s.config.enabled), ..s }
}

pub open spec fn with_server_status(s: AppletView) -> AppletView {
    AppletView { server_status: server_status_of(s), ..s }
}

pub open spec fn with_status(s: AppletView, text: Seq<char>) -> AppletView {
    AppletView { server_status: text, ..s }
}

pub open spec fn with_client_status(s: AppletView, text: Seq<char>) -> AppletView {
    AppletView { client_status: text, ..s }
}

pub open spec fn opening_port(port: u16) -> Seq<char> {
    "Opening firewall port "@ + decimal(port as nat) + "..."@
}

/// The state at start-up, with the stored configuration.
pub open spec fn initial_view(config: ConfigView) -> AppletView {
    AppletView {
        config,
        dir_input: config.shared_dir,
        config_dirty: false,
        daemon_status: DaemonStatus::Unknown,
        daemon_port: None,
        firewall: Firewall::NotDetected,
        firewall_open: false,
        server_status: "Checking..."@,
        shares: seq![],
        mounted: Set::empty(),
        scanning: false,
        client_status: seq![],
        icon_name: "network-server-symbolic"@,
    }
}

/// The reaction to `e` in state `s`: the new state, the immediate effect
/// and the background work.
pub open spec fn react(s: AppletView, e: Event) -> (AppletView, Effect, TaskView) {
    match e {
        Event::Init => (s, Effect::Nothing, TaskView::CheckStatus),
        Event::InitResult { daemon, firewall, port } => {
            let s1 = with_server_status(
                with_icon(AppletView { daemon_status: daemon, firewall, daemon_port: port, ..s }),
            );
            if port is Some && firewall != Firewall::NotDetected && s.config.enabled {
                (
                    with_status(s1, opening_port(port->0)),
                    Effect::Nothing,
                    TaskView::SwapPort { port: port->0, initial: true },
                )
            } else {
                (s1, Effect::Nothing, TaskView::Discover)
            }
        },
        Event::DirChanged(d) => (
            AppletView { dir_input: d@, config_dirty: true, ..s },
            Effect::Nothing,
            TaskView::Idle,
        ),
        Event::SaveConfig => (
            with_status(
                AppletView { config: ConfigView { shared_dir: s.dir_input, ..s.config }, ..s },
                "Applying changes..."@,
            ),
            Effect::Nothing,
            TaskView::SaveAndRestart,
        ),
        Event::ConfigSaved => (
            with_status(
                AppletView { config_dirty: false, daemon_port: None, ..s },
                "Restarting daemon..."@,
            ),
            Effect::Nothing,
            TaskView::ReadPortLater { seconds: 3, ready: true },
        ),
        Event::ToggleReadOnly => (
            with_status(
                AppletView {
                    config: ConfigView { read_only: !s.config.read_only, ..s.config },
                    ..s
                },
                "Switching to "@ + mode_of(!s.config.read_only) + "..."@,
            ),
            Effect::Nothing,
            TaskView::SaveThenSaved,
        ),
        Event::InstallAndStart => (
            with_status(s, "Installing service..."@),
            Effect::Nothing,
            TaskView::SaveAndInstall,
        ),
        Event::InstallResult(ok) => if ok {
            (
                with_server_status(
                    with_icon(
                        AppletView {
                            daemon_status: DaemonStatus::Running,
                            config: ConfigView { enabled: true, ..s.config },
                            ..s
                        },
                    ),
                ),
                Effect::SaveConfig,
                TaskView::ReadPortLater { seconds: 2, ready: true },
            )
        } else {
            (
                with_status(s, "Install failed. Is cosmic-share-daemon in ~/.local/bin/?"@),
                Effect::Nothing,
                TaskView::Idle,
            )
        },
        Event::ToggleEnabled => (
            with_status(
                AppletView { config: ConfigView { enabled: !s.config.enabled, ..s.config }, ..s },
                if !s.config.enabled {
                    "Enabling sharing..."@
                } else {
                    "Disabling sharing..."@
                },
            ),
            Effect::Nothing,
            TaskView::SaveThenToggled(!s.config.enabled),
        ),
        Event::ToggleResult(enabled) => (
            with_status(
                with_icon(s),
                if enabled {
                    "Sharing enabled. Daemon will start within 5s."@
                } else {
                    "Sharing disabled. Daemon will stop within 5s."@
                },
            ),
            Effect::Nothing,
            TaskView::ReadPortLater { seconds: 4, ready: false },
        ),
        Event::StartDaemon => (
            with_status(s, "Starting daemon..."@),
            Effect::Nothing,
            TaskView::StartDaemon,
        ),
        Event::StopDaemon => (
            with_status(s, "Stopping daemon..."@),
            Effect::Nothing,
            TaskView::StopDaemon,
        ),
        Event::DaemonStarted(ok) => if ok {
            (
                with_server_status(
                    with_icon(AppletView { daemon_status: DaemonStatus::Running, ..s }),
                ),
                Effect::Nothing,
                TaskView::ReadPortLater { seconds: 2, ready: false },
            )
        } else {
            (with_status(s, "Failed to start daemon."@), Effect::Nothing, TaskView::Idle)
        },
        Event::DaemonStopped(ok) => if ok {
            (
                with_server_status(
                    with_icon(
                        AppletView {
                            daemon_status: DaemonStatus::Stopped,
                            daemon_port: None,
                            firewall_open: false,
                            ..s
                        },
                    ),
                ),
                Effect::Nothing,
                TaskView::Idle,
            )
        } else {
            (with_status(s, "Failed to stop daemon."@), Effect::Nothing, TaskView::Idle)
        },
        Event::PortRead(port) => (
            with_server_status(AppletView { daemon_port: port, ..s }),
            Effect::Nothing,
            TaskView::Idle,
        ),
        Event::InitFirewallDone(port, ok) => if ok {
            (
                with_status(
                    AppletView { firewall_open: true, ..s },
                    "Port "@ + decimal(port as nat) + " opened."@,
                ),
                Effect::WriteLastPort(port),
                TaskView::Discover,
            )
        } else {
            (
                with_status(s, "Auto-open failed. Click Open Port."@),
                Effect::Nothing,
                TaskView::Discover,
            )
        },
        Event::ConfigPortReady(port) => {
            let s1 = with_icon(
                AppletView { daemon_port: port, daemon_status: DaemonStatus::Running, ..s },
            );
            match port {
                Some(p) => (
                    with_status(s1, opening_port(p)),
                    Effect::Nothing,
                    TaskView::SwapPort { port: p, initial: false },
                ),
                None => (
                    with_status(s1, "Daemon restarted but port not yet available."@),
                    Effect::Nothing,
                    TaskView::Idle,
                ),
            }
        },
        Event::OpenFirewall => match s.daemon_port {
            Some(p) => (with_status(s, opening_port(p)), Effect::Nothing, TaskView::OpenPort(p)),
            None => (
                with_status(s, "No port known — is the daemon running?"@),
                Effect::Nothing,
                TaskView::Idle,
            ),
        },
        Event::CloseFirewall => match s.daemon_port {
            Some(p) => (
                with_status(s, "Closing firewall port "@ + decimal(p as nat) + "..."@),
                Effect::Nothing,
                TaskView::ClosePort(p),
            ),
            None => (s, Effect::Nothing, TaskView::Idle),
        },
        Event::FirewallResult(opened, ok) => if !ok {
            (
                with_status(s, "Firewall change failed — check permissions."@),
                Effect::Nothing,
                TaskView::Idle,
            )
        } else if opened {
            (
                with_status(
                    AppletView { firewall_open: true, ..s },
                    "Firewall port "@ + decimal(
                        (match s.daemon_port {
                            Some(p) => p,
                            None => 0u16,
                        }) as nat,
                    ) + " opened."@,
                ),
                match s.daemon_port {
                    Some(p) => Effect::WriteLastPort(p),
                    None => Effect::Nothing,
                },
                TaskView::Idle,
            )
        } else {
            (
                with_status(AppletView { firewall_open: false, ..s }, "Firewall port closed."@),
                Effect::ClearLastPort,
                TaskView::Idle,
            )
        },
        Event::Scan => (
            with_client_status(AppletView { scanning: true, ..s }, "Scanning..."@),
            Effect::Nothing,
            TaskView::Discover,
        ),
        Event::ScanComplete(shares) => (
            with_client_status(
                AppletView { scanning: false, shares: share_views(shares@), ..s },
                if shares@.len() == 0 {
                    "No shares found."@
                } else {
                    "Found "@ + decimal(shares@.len()) + " share(s)."@
                },
            ),
            Effect::Nothing,
            TaskView::ListMounts,
        ),
        Event::MountedRefreshed(m) => (
            AppletView { mounted: string_views(m@).to_set(), ..s },
            Effect::Nothing,
            TaskView::Idle,
        ),
        Event::Mount(u) => (
            with_client_status(s, "Mounting "@ + u@ + "..."@),
            Effect::Nothing,
            TaskView::Mount(u@),
        ),
        Event::Unmount(u) => (
            with_client_status(s, "Unmounting "@ + u@ + "..."@),
            Effect::Nothing,
            TaskView::Unmount(u@),
        ),
        Event::MountDone(u, ok) => (
            with_client_status(
                AppletView {
                    mounted: if ok {
                        s.mounted.insert(u@)
                    } else {
                        s.mounted
                    },
                    ..s
                },
                if ok {
                    "Mounted: "@ + u@
                } else {
                    "Failed to mount: "@ + u@
                },
            ),
            Effect::Nothing,
            TaskView::Idle,
        ),
        Event::UnmountDone(u, ok) => (
            with_client_status(
                AppletView {
                    mounted: if ok {
                        s.mounted.remove(u@)
                    } else {
                        s.mounted
                    },
                    ..s
                },
                if ok {
                    "Unmounted: "@ + u@
                } else {
                    "Failed to unmount: "@ + u@
                },
            ),
            Effect::Nothing,
            TaskView::Idle,
        ),
    }
}

// ---------------------------------------------------------------------------
// Laws
// ---------------------------------------------------------------------------

/// Unmounting a share that was just mounted leaves the set of mounted
/// shares as it was before the mount, when the share was not mounted then.
pub proof fn lemma_unmount_undoes_mount(s: AppletView, uri: String, again: String)
    requires
        !s.mounted.contains(uri@),
        again@ == uri@,
    ensures
        react(s, Event::MountDone(uri, true)).0.mounted.contains(uri@),
        !react(react(s, Event::MountDone(uri, true)).0, Event::UnmountDone(again, true)).0.mounted.contains(uri@),
        react(react(s, Event::MountDone(uri, true)).0, Event::UnmountDone(again, true)).0.mounted
            == s.mounted,
{
    assert(s.mounted.insert(uri@).remove(uri@) =~= s.mounted);
}

/// A failed mount or unmount leaves the set of mounted shares unchanged.
pub proof fn lemma_failed_mount_changes_nothing(s: AppletView, uri: String)
    ensures
        react(s, Event::MountDone(uri, false)).0.mounted == s.mounted,
        react(s, Event::UnmountDone(uri, false)).0.mounted == s.mounted,
{
}

/// Switching the access mode twice restores the configuration, and each
/// switch stores the configuration.
pub proof fn lemma_access_toggle_twice(s: AppletView)
    ensures
        react(react(s, Event::ToggleReadOnly).0, Event::ToggleReadOnly).0.config == s.config,
        react(s, Event::ToggleReadOnly).0.config.read_only == !s.config.read_only,
        react(s, Event::ToggleReadOnly).2 == TaskView::SaveThenSaved,
{
}

/// Enabling twice restores the configuration; each switch stores it.
pub proof fn lemma_enable_toggle_twice(s: AppletView)
    ensures
        react(react(s, Event::ToggleEnabled).0, Event::ToggleEnabled).0.config == s.config,
        react(s, Event::ToggleEnabled).2 == TaskView::SaveThenToggled(!s.config.enabled),
{
}

/// The directory typed in is the one saved.
pub proof fn lemma_saved_dir_is_typed_dir(s: AppletView, dir: String)
    ensures
        react(react(s, Event::DirChanged(dir)).0, Event::SaveConfig).0.config.shared_dir == dir@,
        react(s, Event::DirChanged(dir)).0.config_dirty,
        !react(react(react(s, Event::DirChanged(dir)).0, Event::SaveConfig).0, Event::ConfigSaved).0.config_dirty,
{
}

/// The port remembered as the last one opened is the daemon's port after a
/// successful open, and nothing after a successful close; a failed change
/// remembers nothing new and leaves the firewall state as it was.
pub proof fn lemma_remembered_port(s: AppletView, opened: bool)
    ensures
        react(s, Event::FirewallResult(true, true)).1 == match s.daemon_port {
            Some(p) => Effect::WriteLastPort(p),
            None => Effect::Nothing,
        },
        react(s, Event::FirewallResult(true, true)).0.firewall_open,
        react(s, Event::FirewallResult(false, true)).1 == Effect::ClearLastPort,
        !react(s, Event::FirewallResult(false, true)).0.firewall_open,
        react(s, Event::FirewallResult(opened, false)).1 == Effect::Nothing,
        react(s, Event::FirewallResult(opened, false)).0.firewall_open == s.firewall_open,
{
}

/// At start-up, when sharing is on, the daemon reports a port and a firewall
/// is detected, the applet opens that port in one step that also closes the
/// port remembered from before; otherwise it goes on to look for shares.
pub proof fn lemma_startup_opens_port(
    s: AppletView,
    daemon: DaemonStatus,
    firewall: Firewall,
    port: Option<u16>,
)
    ensures
        ({
            let r = react(s, Event::InitResult { daemon, firewall, port });
            if port is Some && firewall != Firewall::NotDetected && s.config.enabled {
                r.2 == TaskView::SwapPort { port: port->0, initial: true }
            } else {
                r.2 == TaskView::Discover
            }
        }),
{
}

/// A stopped daemon serves no port, and its port is no longer open.
pub proof fn lemma_stopped_daemon_has_no_port(s: AppletView)
    ensures
        react(s, Event::DaemonStopped(true)).0.daemon_port is None,
        !react(s, Event::DaemonStopped(true)).0.firewall_open,
        react(s, Event::DaemonStopped(true)).0.icon_name == "network-server-symbolic"@,
{
}

/// After each event that reports a change on the daemon's side, the icon
/// shows whether the directory is being shared: the daemon runs and sharing is on.
pub proof fn lemma_icon_shows_sharing(s: AppletView, e: Event)
    requires
        e is InitResult || e is ToggleResult || e is ConfigPortReady || e matches Event::InstallResult(
            true,
        ) || e matches Event::DaemonStarted(true) || e matches Event::DaemonStopped(true),
    ensures
        react(s, e).0.icon_name == icon_of(react(s, e).0.daemon_status, react(s, e).0.config.enabled),
{
}

/// A finished scan replaces the list of shares by what the scan found, in
/// its order, whatever was listed before, and ends the scan.
pub proof fn lemma_scan_replaces_shares(s: AppletView, t: AppletView, shares: Vec<Share>)
    ensures
        react(s, Event::ScanComplete(shares)).0.shares.len() == shares@.len(),
        forall|i: int|
            0 <= i < shares@.len() ==> #[trigger] react(s, Event::ScanComplete(shares)).0.shares[i]
                == shares@[i]@,
        react(s, Event::ScanComplete(shares)).0.shares == react(t, Event::ScanComplete(shares)).0.shares,
        !react(s, Event::ScanComplete(shares)).0.scanning,
{
}

/// The port opened at start-up counts as open only when opening it
/// succeeded: then it is open and remembered; a failed attempt leaves the
/// firewall state as it was and remembers nothing.
pub proof fn lemma_startup_open_counts_only_on_success(s: AppletView, port: u16)
    ensures
        react(s, Event::InitFirewallDone(port, true)).0.firewall_open,
        react(s, Event::InitFirewallDone(port, true)).1 == Effect::WriteLastPort(port),
        react(s, Event::InitFirewallDone(port, false)).0.firewall_open == s.firewall_open,
        react(s, Event::InitFirewallDone(port, false)).1 == Effect::Nothing,
{
}

/// A daemon that started is running; one that failed to start keeps the
/// status it had.
pub proof fn lemma_started_daemon_runs(s: AppletView)
    ensures
        react(s, Event::DaemonStarted(true)).0.daemon_status == DaemonStatus::Running,
        react(s, Event::DaemonStarted(false)).0.daemon_status == s.daemon_status,
{
}

/// An item is in a sequence with one item pushed onto it exactly when it is
/// the pushed item or was in the sequence before.
proof fn lemma_push_contains(s: Seq<Seq<char>>, v: Seq<char>)
    ensures
        forall|x: Seq<char>| #[trigger] s.push(v).contains(x) <==> (s.contains(x) || x == v),
{
    assert forall|x: Seq<char>| #[trigger] s.push(v).contains(x) <==> (s.contains(x) || x == v) by {
        if s.contains(x) {
            let j = choose|j: int| 0 <= j < s.len() && s[j] == x;
            assert(s.push(v)[j] == x);
        }
        if x == v {
            assert(s.push(v)[s.len() as int] == x);
        }
        if s.push(v).contains(x) {
            let j = choose|j: int| 0 <= j < s.push(v).len() && s.push(v)[j] == x;
            if j < s.len() {
                assert(s[j] == x);
            }
        }
    }
}

// ---------------------------------------------------------------------------
// Executable reactions
// ---------------------------------------------------------------------------

/// The events about other machines' shares.
pub open spec fn client_event(e: Event) -> bool {
    match e {
        Event::Scan | Event::ScanComplete(_) | Event::MountedRefreshed(_) | Event::Mount(_)
        | Event::Unmount(_) | Event::MountDone(_, _) | Event::UnmountDone(_, _) => true,
        _ => false,
    }
}

fn is_client_event(e: &Event) -> (r: bool)
    ensures
        r == client_event(*e),
{
    match e {
        Event::Scan | Event::ScanComplete(_) | Event::MountedRefreshed(_) | Event::Mount(_)
        | Event::Unmount(_) | Event::MountDone(_, _) | Event::UnmountDone(_, _) => true,
        _ => false,
    }
}

fn mode_text(read_only: bool) -> (r: &'static str)
    ensures
        r@ == mode_of(read_only),
{
    if read_only {
        "read-only"
    } else {
        "read-write"
    }
}

fn opening_port_text(port: u16) -> (r: String)
    ensures
        r@ == opening_port(port),
{
    let mut t = owned("Opening firewall port ");
    push_decimal(&mut t, port as u64);
    t.append("...");
    t
}

/// `prefix`, the decimal representation of `n`, then `suffix`.
fn number_text(prefix: &str, n: u64, suffix: &str) -> (r: String)
    ensures
        r@ == prefix@ + decimal(n as nat) + suffix@,
{
    let mut t = owned(prefix);
    push_decimal(&mut t, n);
    t.append(suffix);
    t
}

/// `prefix` then `text`.
fn prefixed_text(prefix: &str, text: &str) -> (r: String)
    ensures
        r@ == prefix@ + text@,
{
    let mut t = owned(prefix);
    t.append(text);
    t
}

/// `prefix`, `middle`, then `suffix`.
fn framed_text(prefix: &str, middle: &str, suffix: &str) -> (r: String)
    ensures
        r@ == prefix@ + middle@ + suffix@,
{
    let mut t = owned(prefix);
    t.append(middle);
    t.append(suffix);
    t
}

impl Applet {
    /// The state at start-up, with the stored configuration.
    pub fn new(config: Config) -> (r: Applet)
        ensures
            r@ == initial_view(config@),
    {
        let dir = config.shared_dir.clone();
        let r = Applet {
            config,
            dir_input: dir,
            config_dirty: false,
            daemon_status: DaemonStatus::Unknown,
            daemon_port: None,
            firewall: Firewall::NotDetected,
            firewall_open: false,
            server_status: owned("Checking..."),
            shares: Vec::new(),
            mounted: Vec::new(),
            scanning: false,
            client_status: String::new(),
            icon_name: owned("network-server-symbolic"),
        };
        assert(r@.shares =~= Seq::<ShareView>::empty());
        assert(r@.mounted =~= Set::<Seq<char>>::empty());
        r
    }

    /// The panel icon for the current state.
    pub fn icon(&self) -> (r: &'static str)
        ensures
            r@ == icon_of(self.daemon_status, self.config.enabled),
    {
        if self.daemon_status == DaemonStatus::Running && self.config.enabled {
            "folder-remote-symbolic"
        } else {
            "network-server-symbolic"
        }
    }

    fn update_icon(&mut self)
        ensures
            final(self)@ == with_icon(old(self)@),
    {
        self.icon_name = owned(self.icon());
    }

    /// The line that describes the sharing side.
    pub fn build_server_status(&self) -> (r: String)
        ensures
            r@ == server_status_of(self@),
    {
        match self.daemon_status {
            DaemonStatus::Running => {
                if self.config.enabled {
                    let mut t = owned("Sharing ");
                    t.append(self.config.shared_dir.as_str());
                    match self.daemon_port {
                        Some(port) => {
                            t.append(" on port ");
                            push_decimal(&mut t, port as u64);
                            t.append(" (");
                        },
                        None => {
                            t.append(" (port pending, ");
                        },
                    }
                    t.append(mode_text(self.config.read_only));
                    t.append("). Firewall: ");
                    t.append(self.firewall.name());
                    t.append(".");
                    t
                } else {
                    owned("Daemon running, sharing disabled.")
                }
            },
            DaemonStatus::Stopped => owned("Daemon stopped."),
            DaemonStatus::NotInstalled => owned("Service not installed."),
            DaemonStatus::Unknown => owned("Checking..."),
        }
    }

    fn update_server_status(&mut self)
        ensures
            final(self)@ == with_server_status(old(self)@),
    {
        self.server_status = self.build_server_status();
    }

    fn set_status(&mut self, text: String)
        ensures
            final(self)@ == with_status(old(self)@, text@),
    {
        self.server_status = text;
    }

    fn set_client_status(&mut self, text: String)
        ensures
            final(self)@ == with_client_status(old(self)@, text@),
    {
        self.client_status = text;
    }

    fn add_mounted(&mut self, uri: String)
        ensures
            final(self)@ == (AppletView { mounted: old(self)@.mounted.insert(uri@), ..old(self)@ }),
    {
        let ghost before = string_views(self.mounted@);
        if !contains_string(&self.mounted, &uri) {
            let ghost u = uri@;
            self.mounted.push(uri);
            assert(string_views(self.mounted@) =~= before.push(u));
            proof {
                lemma_push_contains(before, u);
            }
            assert(string_views(self.mounted@).to_set() =~= before.to_set().insert(u));
        } else {
            assert(before.to_set() =~= before.to_set().insert(uri@));
        }
    }

    fn remove_mounted(&mut self, uri: &String)
        ensures
            final(self)@ == (AppletView { mounted: old(self)@.mounted.remove(uri@), ..old(self)@ }),
    {
        let ghost before = string_views(self.mounted@);
        let mut kept: Vec<String> = Vec::new();
        let mut i: usize = 0;
        while i < self.mounted.len()
            invariant
                i <= self.mounted.len(),
                before == string_views(self.mounted@),
                string_views(kept@).to_set() == before.take(i as int).to_set().remove(uri@),
            decreases self.mounted.len() - i,
        {
            let ghost old_kept = string_views(kept@);
            let ghost pre = before.take(i as int);
            let ghost next = before[i as int];
            assert(before.take(i + 1) =~= pre.push(next));
            proof {
                lemma_push_contains(pre, next);
            }
            if !(self.mounted[i] == *uri) {
                kept.push(self.mounted[i].clone());
                assert(string_views(kept@) =~= old_kept.push(next));
                proof {
                    lemma_push_contains(old_kept, next);
                }
            }
            assert forall|x: Seq<char>|
                #[trigger] string_views(kept@).to_set().contains(x) <==> before.take(
                    i + 1,
                ).to_set().remove(uri@).contains(x) by {
                assert(string_views(kept@).to_set().contains(x) == string_views(kept@).contains(x));
                assert(old_kept.to_set().contains(x) == old_kept.contains(x));
                assert(pre.to_set().contains(x) == pre.contains(x));
                assert(before.take(i + 1).to_set().contains(x) == pre.push(next).contains(x));
            }
            assert(string_views(kept@).to_set() =~= before.take(i + 1).to_set().remove(uri@));
            i += 1;
        }
        assert(before.take(self.mounted.len() as int) =~= before);
        self.mounted = kept;
    }

    /// The reaction to one event: the state changes as `react` says, and the
    /// effect and task returned are those `react` gives.
    pub fn update(&mut self, event: Event) -> (r: Reaction)
        ensures
            final(self)@ == react(old(self)@, event).0,
            r.effect == react(old(self)@, event).1,
            task_view(r.task) == react(old(self)@, event).2,
    {
        if is_client_event(&event) {
            self.update_client(event)
        } else {
            self.update_server(event)
        }
    }

    fn update_client(&mut self, event: Event) -> (r: Reaction)
        requires
            client_event(event),
        ensures
            final(self)@ == react(old(self)@, event).0,
            r.effect == react(old(self)@, event).1,
            task_view(r.task) == react(old(self)@, event).2,
    {
        match event {
            Event::Scan => {
                self.scanning = true;
                self.set_client_status(owned("Scanning..."));
                Reaction { effect: Effect::Nothing, task: Task::Discover }
            },
            Event::ScanComplete(shares) => {
                self.scanning = false;
                let count = shares.len();
                self.shares = shares;
                if count == 0 {
                    self.set_client_status(owned("No shares found."));
                } else {
                    self.set_client_status(number_text("Found ", count as u64, " share(s)."));
                }
                Reaction { effect: Effect::Nothing, task: Task::ListMounts }
            },
            Event::MountedRefreshed(m) => {
                self.mounted = m;
                Reaction { effect: Effect::Nothing, task: Task::Idle }
            },
            Event::Mount(u) => {
                self.set_client_status(framed_text("Mounting ", u.as_str(), "..."));
                Reaction { effect: Effect::Nothing, task: Task::Mount(u) }
            },
            Event::Unmount(u) => {
                self.set_client_status(framed_text("Unmounting ", u.as_str(), "..."));
                Reaction { effect: Effect::Nothing, task: Task::Unmount(u) }
            },
            Event::MountDone(u, ok) => {
                let text = if ok {
                    prefixed_text("Mounted: ", u.as_str())
                } else {
                    prefixed_text("Failed to mount: ", u.as_str())
                };
                if ok {
                    self.add_mounted(u);
                }
                self.set_client_status(text);
                Reaction { effect: Effect::Nothing, task: Task::Idle }
            },
            Event::UnmountDone(u, ok) => {
                if ok {
                    self.remove_mounted(&u);
                }
                let text = if ok {
                    prefixed_text("Unmounted: ", u.as_str())
                } else {
                    prefixed_text("Failed to unmount: ", u.as_str())
                };
                self.set_client_status(text);
                Reaction { effect: Effect::Nothing, task: Task::Idle }
            },
            _ => Reaction { effect: Effect::Nothing, task: Task::Idle },
        }
    }

    #[verifier::rlimit(60)]
    fn update_server(&mut self, event: Event) -> (r: Reaction)
        requires
            !client_event(event),
        ensures
            final(self)@ == react(old(self)@, event).0,
            r.effect == react(old(self)@, event).1,
            task_view(r.task) == react(old(self)@, event).2,
    {
        match event {
            Event::Init => Reaction { effect: Effect::Nothing, task: Task::CheckStatus },
            Event::InitResult { daemon, firewall, port } => {
                let enabled = self.config.enabled;
                self.daemon_status = daemon;
                self.firewall = firewall;
                self.daemon_port = port;
                self.update_icon();
                self.update_server_status();
                match port {
                    Some(p) => {
                        if firewall != Firewall::NotDetected && enabled {
                            self.set_status(opening_port_text(p));
                            return Reaction {
                                effect: Effect::Nothing,
                                task: Task::SwapPort { port: p, initial: true },
                            };
                        }
                    },
                    None => {},
                }
                Reaction { effect: Effect::Nothing, task: Task::Discover }
            },
            Event::DirChanged(d) => {
                self.dir_input = d;
                self.config_dirty = true;
                Reaction { effect: Effect::Nothing, task: Task::Idle }
            },
            Event::SaveConfig => {
                self.config.shared_dir = self.dir_input.clone();
                self.set_status(owned("Applying changes..."));
                Reaction { effect: Effect::Nothing, task: Task::SaveAndRestart }
            },
            Event::ConfigSaved => {
                self.config_dirty = false;
                self.daemon_port = None;
                self.set_status(owned("Restarting daemon..."));
                Reaction {
                    effect: Effect::Nothing,
                    task: Task::ReadPortLater { seconds: 3, ready: true },
                }
            },
            Event::ToggleReadOnly => {
                self.config.read_only = !self.config.read_only;
                let text = framed_text("Switching to ", mode_text(self.config.read_only), "...");
                self.set_status(text);
                Reaction { effect: Effect::Nothing, task: Task::SaveThenSaved }
            },
            Event::InstallAndStart => {
                self.set_status(owned("Installing service..."));
                Reaction { effect: Effect::Nothing, task: Task::SaveAndInstall }
            },
            Event::InstallResult(ok) => {
                if ok {
                    self.daemon_status = DaemonStatus::Running;
                    self.config.enabled = true;
                    self.update_icon();
                    self.update_server_status();
                    Reaction {
                        effect: Effect::SaveConfig,
                        task: Task::ReadPortLater { seconds: 2, ready: true },
                    }
                } else {
                    self.set_status(owned("Install failed. Is cosmic-share-daemon in ~/.local/bin/?"));
                    Reaction { effect: Effect::Nothing, task: Task::Idle }
                }
            },
            Event::ToggleEnabled => {
                self.config.enabled = !self.config.enabled;
                let enabled = self.config.enabled;
                if enabled {
                    self.set_status(owned("Enabling sharing..."));
                } else {
                    self.set_status(owned("Disabling sharing..."));
                }
                Reaction { effect: Effect::Nothing, task: Task::SaveThenToggled(enabled) }
            },
            Event::ToggleResult(enabled) => {
                self.update_icon();
                if enabled {
                    self.set_status(owned("Sharing enabled. Daemon will start within 5s."));
                } else {
                    self.set_status(owned("Sharing disabled. Daemon will stop within 5s."));
                }
                Reaction {
                    effect: Effect::Nothing,
                    task: Task::ReadPortLater { seconds: 4, ready: false },
                }
            },
            Event::StartDaemon => {
                self.set_status(owned("Starting daemon..."));
                Reaction { effect: Effect::Nothing, task: Task::StartDaemon }
            },
            Event::StopDaemon => {
                self.set_status(owned("Stopping daemon..."));
                Reaction { effect: Effect::Nothing, task: Task::StopDaemon }
            },
            Event::DaemonStarted(ok) => {
                if ok {
                    self.daemon_status = DaemonStatus::Running;
                    self.update_icon();
                    self.update_server_status();
                    Reaction {
                        effect: Effect::Nothing,
                        task: Task::ReadPortLater { seconds: 2, ready: false },
                    }
                } else {
                    self.set_status(owned("Failed to start daemon."));
                    Reaction { effect: Effect::Nothing, task: Task::Idle }
                }
            },
            Event::DaemonStopped(ok) => {
                if ok {
                    self.daemon_status = DaemonStatus::Stopped;
                    self.daemon_port = None;
                    self.firewall_open = false;
                    self.update_icon();
                    self.update_server_status();
                } else {
                    self.set_status(owned("Failed to stop daemon."));
                }
                Reaction { effect: Effect::Nothing, task: Task::Idle }
            },
            Event::PortRead(port) => {
                self.daemon_port = port;
                self.update_server_status();
                Reaction { effect: Effect::Nothing, task: Task::Idle }
            },
            Event::InitFirewallDone(port, ok) => {
                if ok {
                    self.firewall_open = true;
                    self.set_status(number_text("Port ", port as u64, " opened."));
                    Reaction { effect: Effect::WriteLastPort(port), task: Task::Discover }
                } else {
                    self.set_status(owned("Auto-open failed. Click Open Port."));
                    Reaction { effect: Effect::Nothing, task: Task::Discover }
                }
            },
            Event::ConfigPortReady(port) => {
                self.daemon_port = port;
                self.daemon_status = DaemonStatus::Running;
                self.update_icon();
                match port {
                    Some(p) => {
                        self.set_status(opening_port_text(p));
                        Reaction {
                            effect: Effect::Nothing,
                            task: Task::SwapPort { port: p, initial: false },
                        }
                    },
                    None => {
                        self.set_status(owned("Daemon restarted but port not yet available."));
                        Reaction { effect: Effect::Nothing, task: Task::Idle }
                    },
                }
            },
            Event::OpenFirewall => {
                match self.daemon_port {
                    Some(p) => {
                        self.set_status(opening_port_text(p));
                        Reaction { effect: Effect::Nothing, task: Task::OpenPort(p) }
                    },
                    None => {
                        self.set_status(owned("No port known — is the daemon running?"));
                        Reaction { effect: Effect::Nothing, task: Task::Idle }
                    },
                }
            },
            Event::CloseFirewall => {
                match self.daemon_port {
                    Some(p) => {
                        self.set_status(number_text("Closing firewall port ", p as u64, "..."));
                        Reaction { effect: Effect::Nothing, task: Task::ClosePort(p) }
                    },
                    None => Reaction { effect: Effect::Nothing, task: Task::Idle },
                }
            },
            Event::FirewallResult(opened, ok) => {
                if !ok {
                    self.set_status(owned("Firewall change failed — check permissions."));
                    Reaction { effect: Effect::Nothing, task: Task::Idle }
                } else if opened {
                    self.firewall_open = true;
                    let (effect, shown) = match self.daemon_port {
                        Some(p) => (Effect::WriteLastPort(p), p),
                        None => (Effect::Nothing, 0u16),
                    };
                    self.set_status(number_text("Firewall port ", shown as u64, " opened."));
                    Reaction { effect, task: Task::Idle }
                } else {
                    self.firewall_open = false;
                    self.set_status(owned("Firewall port closed."));
                    Reaction { effect: Effect::ClearLastPort, task: Task::Idle }
                }
            },
            _ => Reaction { effect: Effect::Nothing, task: Task::Idle },
        }
    }
}

} // verus!
