//! Installing the daemon as a systemd user service: where its program and
//! unit go, the unit's text, and where the program to install is found.
use vstd::prelude::*;
use crate::config::{join_path, join_path_exec};
use crate::text::{owned, string_views, trim, trim_str};

verus! {

/// The systemd user unit that runs the daemon from `~/.local/bin`.
pub open spec fn service_unit_of() -> Seq<char> {
    "[Unit]\nDescription=COSMIC Share Browser - WebDAV sharing daemon\nAfter=network.target avahi-daemon.service\n\n[Service]\nExecStart=%h/.local/bin/cosmic-share-daemon\nRestart=on-failure\nRestartSec=5\nStandardOutput=journal\nStandardError=journal\n\n[Install]\nWantedBy=default.target\n"@
}

/// The text of the daemon's unit file.
pub fn service_unit_text() -> (r: &'static str)
    ensures
        r@ == service_unit_of(),
{
    "[Unit]\nDescription=COSMIC Share Browser - WebDAV sharing daemon\nAfter=network.target avahi-daemon.service\n\n[Service]\nExecStart=%h/.local/bin/cosmic-share-daemon\nRestart=on-failure\nRestartSec=5\nStandardOutput=journal\nStandardError=journal\n\n[Install]\nWantedBy=default.target\n"
}

/// The directory the daemon's program is installed into.
pub fn local_bin_dir(home: &str) -> (r: String)
    ensures
        r@ == join_path(home@, ".local/bin"@),
{
    join_path_exec(home, ".local/bin")
}

/// Where the daemon's program is installed, the path the unit runs.
pub fn installed_daemon_path(home: &str) -> (r: String)
    ensures
        r@ == join_path(join_path(home@, ".local/bin"@), "cosmic-share-daemon"@),
{
    let dir = local_bin_dir(home);
    join_path_exec(dir.as_str(), "cosmic-share-daemon")
}

/// The directory of the systemd user units.
pub fn service_dir(home: &str) -> (r: String)
    ensures
        r@ == join_path(home@, ".config/systemd/user"@),
{
    join_path_exec(home, ".config/systemd/user")
}

/// What the search for the daemon's program does next.
pub enum Lookup {
    /// Check whether this file exists and pass on the answer.
    CheckExists(String),
    /// Run this command and pass on its output when it succeeds.
    Run(Vec<String>),
    /// The program is at this path.
    Found(String),
    /// The program was not found.
    Missing,
}

pub enum LookupView {
    CheckExists(Seq<char>),
    Run(Seq<Seq<char>>),
    Found(Seq<char>),
    Missing,
}

pub open spec fn lookup_view(l: Lookup) -> LookupView {
    match l {
        Lookup::CheckExists(p) => LookupView::CheckExists(p@),
        Lookup::Run(c) => LookupView::Run(string_views(c@)),
        Lookup::Found(p) => LookupView::Found(p@),
        Lookup::Missing => LookupView::Missing,
    }
}

/// The search for the daemon's program. It looks, in turn, beside the running
/// program, in `~/.local/bin`, and on the `PATH` through `which`.
/// `exe_dir` is `None` when the running program's path is not known, and
/// `Some(None)` when that path has no parent, which ends the search;
/// `home` is the home directory when it is set; `exists` holds the answers to
/// the existence checks asked for so far; `which` is the output of `which`
/// once it was run (`None` inside when it failed).
pub open spec fn lookup_of(
    exe_dir: Option<Option<Seq<char>>>,
    home: Option<Seq<char>>,
    exists: Seq<bool>,
    which: Option<Option<Seq<char>>>,
) -> LookupView {
    let beside = match exe_dir {
        Some(Some(d)) => Some(join_path(d, "cosmic-share-daemon"@)),
        _ => None,
    };
    let asked = if beside is Some { 1int } else { 0int };
    if exe_dir == Some(None::<Seq<char>>) {
        LookupView::Missing
    } else if beside is Some && exists.len() == 0 {
        LookupView::CheckExists(beside->0)
    } else if beside is Some && exists[0] {
        LookupView::Found(beside->0)
    } else {
        match home {
            None => LookupView::Missing,
            Some(h) => {
                let local = join_path(h, ".local/bin/cosmic-share-daemon"@);
                if exists.len() <= asked {
                    LookupView::CheckExists(local)
                } else if exists[asked] {
                    LookupView::Found(local)
                } else {
                    match which {
                        None => LookupView::Run(seq!["which"@, "cosmic-share-daemon"@]),
                        Some(None) => LookupView::Missing,
                        Some(Some(out)) => LookupView::Found(trim(out)),
                    }
                }
            },
        }
    }
}

pub open spec fn option_view(o: Option<String>) -> Option<Seq<char>> {
    match o {
        Some(s) => Some(s@),
        None => None,
    }
}

pub open spec fn nested_view(o: Option<Option<String>>) -> Option<Option<Seq<char>>> {
    match o {
        Some(i) => Some(option_view(i)),
        None => None,
    }
}

/// One step of the search for the daemon's program (see `lookup_of`).
pub fn find_daemon_binary(
    exe_dir: &Option<Option<String>>,
    home: &Option<String>,
    exists: &Vec<bool>,
    which: &Option<Option<String>>,
) -> (r: Lookup)
    ensures
        lookup_view(r) == lookup_of(nested_view(*exe_dir), option_view(*home), exists@, nested_view(*which)),
{
    let mut asked: usize = 0;
    match exe_dir {
        Some(None) => {
            return Lookup::Missing;
        },
        Some(Some(d)) => {
            let beside = join_path_exec(d.as_str(), "cosmic-share-daemon");
            if exists.len() == 0 {
                return Lookup::CheckExists(beside);
            }
            if exists[0] {
                return Lookup::Found(beside);
            }
            asked = 1;
        },
        None => {},
    }
    match home {
        None => Lookup::Missing,
        Some(h) => {
            let local = join_path_exec(h.as_str(), ".local/bin/cosmic-share-daemon");
            if exists.len() <= asked {
                Lookup::CheckExists(local)
            } else if exists[asked] {
                Lookup::Found(local)
            } else {
                match which {
                    None => {
                        let cmd = vec![owned("which"), owned("cosmic-share-daemon")];
                        assert(string_views(cmd@) =~= seq!["which"@, "cosmic-share-daemon"@]);
                        Lookup::Run(cmd)
                    },
                    Some(None) => Lookup::Missing,
                    Some(Some(out)) => Lookup::Found(trim_str(out.as_str())),
                }
            }
        },
    }
}

} // verus!
