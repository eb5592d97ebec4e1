//! The sharing daemon's decisions: which requests a read-only share refuses,
//! how the share is advertised, and what a change of configuration calls for.
use vstd::prelude::*;
use crate::config::{Config, ConfigView};
use crate::text::{chars_eq, chars_of, decimal, decimal_string, owned, string_views};

verus! {

/// The WebDAV methods that change the shared directory.
pub open spec fn is_write_method(method: Seq<char>) -> bool {
    ||| method == "PUT"@
    ||| method == "DELETE"@
    ||| method == "MKCOL"@
    ||| method == "MOVE"@
    ||| method == "COPY"@
    ||| method == "PROPPATCH"@
    ||| method == "LOCK"@
    ||| method == "UNLOCK"@
}

/// The answer a read-only share gives to a request it refuses.
pub struct Refusal {
    pub status: u16,
    pub body: &'static str,
}

fn same_text(a: &str, b: &str) -> (r: bool)
    ensures
        r == (a@ == b@),
{
    let x = chars_of(a);
    let y = chars_of(b);
    chars_eq(&x, &y)
}

/// Whether a request with this method is refused before it reaches the
/// WebDAV handler, and with what: on a read-only share every method that
/// writes is answered `405 Method Not Allowed`; nothing else is refused.
pub fn read_only_refusal(read_only: bool, method: &str) -> (r: Option<Refusal>)
    ensures
        r is Some <==> read_only && is_write_method(method@),
        r matches Some(f) ==> f.status == 405 && f.body@ == "Read-only share"@,
{
    if !read_only {
        return None;
    }
    let writes = same_text(method, "PUT") || same_text(method, "DELETE") || same_text(
        method,
        "MKCOL",
    ) || same_text(method, "MOVE") || same_text(method, "COPY") || same_text(method, "PROPPATCH")
        || same_text(method, "LOCK") || same_text(method, "UNLOCK");
    if writes {
        Some(Refusal { status: 405, body: "Read-only share" })
    } else {
        None
    }
}

/// The command that advertises the share as a `_webdav._tcp` service.
pub open spec fn avahi_publish_of(service_name: Seq<char>, port: u16) -> Seq<Seq<char>> {
    seq![
        "avahi-publish-service"@,
        service_name,
        "_webdav._tcp"@,
        decimal(port as nat),
        "u=/"@,
        "path=/"@,
    ]
}

pub fn avahi_publish_command(service_name: &str, port: u16) -> (r: Vec<String>)
    ensures
        string_views(r@) == avahi_publish_of(service_name@, port),
{
    let mut r: Vec<String> = Vec::new();
    r.push(owned("avahi-publish-service"));
    r.push(owned(service_name));
    r.push(owned("_webdav._tcp"));
    r.push(decimal_string(port as u64));
    r.push(owned("u=/"));
    r.push(owned("path=/"));
    assert(string_views(r@) =~= avahi_publish_of(service_name@, port));
    r
}

/// What the daemon does when the configuration file has changed.
#[derive(Debug, Clone, Copy, PartialEq, Eq, Structural)]
pub enum Reload {
    /// Leave the server as it is and keep the recorded configuration.
    Keep,
    /// Start no server; record the new configuration.
    Record,
    /// Stop the running server and record the new configuration.
    StopAndRecord,
    /// Stop the running server, if any, start one with the new
    /// configuration, and record it.
    Restart,
}

pub open spec fn option_config_view(c: Option<Config>) -> Option<ConfigView> {
    match c {
        Some(c) => Some(c@),
        None => None,
    }
}

/// Whether the new configuration needs a server different from the one the
/// recorded configuration was served with.
pub open spec fn needs_restart(current: Option<ConfigView>, new: ConfigView) -> bool {
    match current {
        None => new.enabled,
        Some(c) => new.enabled && (c.shared_dir != new.shared_dir || c.service_name
            != new.service_name || c.read_only != new.read_only),
    }
}

pub open spec fn reload_of(current: Option<ConfigView>, new: ConfigView, serving: bool) -> Reload {
    if !new.enabled {
        if serving {
            Reload::StopAndRecord
        } else {
            Reload::Record
        }
    } else if needs_restart(current, new) || !serving {
        Reload::Restart
    } else {
        Reload::Keep
    }
}

fn strings_eq(a: &String, b: &String) -> (r: bool)
    ensures
        r == (a@ == b@),
{
    *a == *b
}

/// The daemon's decision on a changed configuration, given the configuration
/// it recorded last and whether a server is running. Sharing turned off
/// stops the server; sharing on with no server, or with a changed directory,
/// service name or access mode, (re)starts it.
pub fn plan_reload(current: &Option<Config>, new: &Config, serving: bool) -> (r: Reload)
    ensures
        r == reload_of(option_config_view(*current), new@, serving),
        !new.enabled ==> (r == Reload::StopAndRecord <==> serving) && r != Reload::Restart && r
            != Reload::Keep,
        new.enabled && !serving ==> r == Reload::Restart,
{
    let restart = match current {
        None => new.enabled,
        Some(c) => new.enabled && (!strings_eq(&c.shared_dir, &new.shared_dir) || !strings_eq(
            &c.service_name,
            &new.service_name,
        ) || c.read_only != new.read_only),
    };
    if !new.enabled {
        if serving {
            Reload::StopAndRecord
        } else {
            Reload::Record
        }
    } else if restart || !serving {
        Reload::Restart
    } else {
        Reload::Keep
    }
}

/// With sharing on and a server running, a changed configuration keeps the
/// server exactly when it differs from the recorded one in nothing but
/// `enabled`: a new directory, service name or access mode restarts it.
/// Without a recorded configuration, or without a running server, sharing on
/// always (re)starts it.
pub proof fn lemma_reload_restarts_on_change(current: ConfigView, new: ConfigView, serving: bool)
    requires
        new.enabled,
    ensures
        reload_of(Some(current), new, true) == Reload::Keep
            <==> (ConfigView { enabled: true, ..current }) == new,
        reload_of(Some(current), new, true) != Reload::Keep ==> reload_of(Some(current), new, true)
            == Reload::Restart,
        reload_of(None, new, serving) == Reload::Restart,
        reload_of(Some(current), new, false) == Reload::Restart,
{
}

} // verus!
