//! The shared configuration, where its files live, and the port files that the
//! daemon and the applet exchange.
use vstd::prelude::*;
use crate::text::{
    chars_of, decimal, decimal_string, lemma_decimal, lemma_parse_decimal, lemma_trim_digits,
    owned, parse_u16, parse_u16_chars, trim, trim_chars, is_whitespace,
};

verus! {

/// The settings of the sharing daemon, as stored in its configuration file.
#[derive(Debug)]
pub struct Config {
    pub enabled: bool,
    pub shared_dir: String,
    pub service_name: String,
    pub read_only: bool,
}

pub struct ConfigView {
    pub enabled: bool,
    pub shared_dir: Seq<char>,
    pub service_name: Seq<char>,
    pub read_only: bool,
}

impl View for Config {
    type V = ConfigView;

    open spec fn view(&self) -> ConfigView {
        ConfigView {
            enabled: self.enabled,
            shared_dir: self.shared_dir@,
            service_name: self.service_name@,
            read_only: self.read_only,
        }
    }
}

impl Clone for Config {
    fn clone(&self) -> (r: Self)
        ensures
            r@ == self@,
    {
        Config {
            enabled: self.enabled,
            shared_dir: self.shared_dir.clone(),
            service_name: self.service_name.clone(),
            read_only: self.read_only,
        }
    }
}

impl PartialEq for Config {
    fn eq(&self, other: &Self) -> (r: bool) {
        self.enabled == other.enabled && self.shared_dir == other.shared_dir && self.service_name
            == other.service_name && self.read_only == other.read_only
    }
}

impl vstd::std_specs::cmp::PartialEqSpecImpl for Config {
    open spec fn obeys_eq_spec() -> bool {
        true
    }

    open spec fn eq_spec(&self, other: &Self) -> bool {
        self@ == other@
    }
}

/// The configuration used when none is stored: sharing off, read-only, the
/// `Public` folder of the home directory, advertised as `COSMIC-Share`.
pub open spec fn default_config(home: Seq<char>) -> ConfigView {
    ConfigView {
        enabled: false,
        shared_dir: home + "/Public"@,
        service_name: "COSMIC-Share"@,
        read_only: true,
    }
}

/// `PathBuf::join` with a relative path: a `/` is put between the two
/// unless the base is empty or already ends with one.
pub open spec fn join_path(base: Seq<char>, rel: Seq<char>) -> Seq<char> {
    if base.len() == 0 {
        rel
    } else if base.last() == '/' {
        base + rel
    } else {
        base + "/"@ + rel
    }
}

/// The port that the text of a port file names: the file is trimmed and
/// read as a 16-bit number.
pub open spec fn port_in_file(text: Seq<char>) -> Option<u16> {
    parse_u16(trim(text))
}

/// The read-only flag a configuration takes when its file does not give one.
pub fn default_read_only() -> (r: bool)
    ensures
        r,
{
    true
}

/// The home directory, or `/home/user` when it is not known.
pub fn home_or_fallback(home: Option<String>) -> (r: String)
    ensures
        r@ == match home {
            Some(h) => h@,
            None => "/home/user"@,
        },
{
    match home {
        Some(h) => h,
        None => owned("/home/user"),
    }
}

/// The per-user runtime directory, or `/tmp` when it is not known.
pub fn runtime_dir_or_fallback(dir: Option<String>) -> (r: String)
    ensures
        r@ == match dir {
            Some(d) => d@,
            None => "/tmp"@,
        },
{
    match dir {
        Some(d) => d,
        None => owned("/tmp"),
    }
}

pub(crate) fn join_path_exec(base: &str, rel: &str) -> (r: String)
    ensures
        r@ == join_path(base@, rel@),
{
    let b = chars_of(base);
    let mut r = owned(base);
    if b.len() > 0 && b[b.len() - 1] != '/' {
        r.append("/");
    }
    r.append(rel);
    proof {
        if b@.len() == 0 {
            assert(r@ =~= rel@);
        }
    }
    r
}

/// The text a port file holds for `port`.
pub fn port_file_text(port: u16) -> (r: String)
    ensures
        r@ == decimal(port as nat),
{
    decimal_string(port as u64)
}

/// The port a port file names, if it names one.
pub fn port_from_file_text(text: &str) -> (r: Option<u16>)
    ensures
        r == port_in_file(text@),
{
    let v = chars_of(text);
    let t = trim_chars(&v);
    parse_u16_chars(&t)
}

/// What is written to a port file is read back from it, also when
/// whitespace (such as a final newline) was added around it.
pub proof fn lemma_port_file_round_trip(port: u16, pre: Seq<char>, post: Seq<char>)
    requires
        forall|i: int| 0 <= i < pre.len() ==> #[trigger] is_whitespace(pre[i]),
        forall|i: int| 0 <= i < post.len() ==> #[trigger] is_whitespace(post[i]),
    ensures
        port_in_file(pre + decimal(port as nat) + post) == Some(port),
{
    lemma_decimal(port as nat);
    lemma_trim_digits(decimal(port as nat), pre, post);
    lemma_parse_decimal(port);
}

impl Config {
    /// The configuration used when none is stored.
    pub fn default_for_home(home: &str) -> (r: Config)
        ensures
            r@ == default_config(home@),
    {
        let mut dir = owned(home);
        dir.append("/Public");
        Config {
            enabled: false,
            shared_dir: dir,
            service_name: owned("COSMIC-Share"),
            read_only: default_read_only(),
        }
    }

    /// The configuration in effect: the stored one when it could be read and
    /// parsed, else the default one.
    pub fn load(stored: Option<Config>, home: &str) -> (r: Config)
        ensures
            r@ == match stored {
                Some(c) => c@,
                None => default_config(home@),
            },
    {
        match stored {
            Some(c) => c,
            None => Config::default_for_home(home),
        }
    }

    /// Where the configuration file lives, under the home directory.
    pub fn path(home: &str) -> (r: String)
        ensures
            r@ == join_path(home@, ".config/cosmic-share-browser/config.toml"@),
    {
        join_path_exec(home, ".config/cosmic-share-browser/config.toml")
    }

    /// Where the daemon's systemd user unit lives, under the home directory.
    pub fn service_path(home: &str) -> (r: String)
        ensures
            r@ == join_path(home@, ".config/systemd/user/cosmic-share-daemon.service"@),
    {
        join_path_exec(home, ".config/systemd/user/cosmic-share-daemon.service")
    }

    /// Where the daemon writes its current port so the applet can read it: in
    /// the per-user runtime directory, which is cleaned on logout.
    pub fn runtime_port_path(runtime_dir: &str) -> (r: String)
        ensures
            r@ == join_path(runtime_dir@, "cosmic-share-daemon.port"@),
    {
        join_path_exec(runtime_dir, "cosmic-share-daemon.port")
    }

    /// The file that remembers the last firewall port opened. It lives under
    /// the home directory, so it survives a reboot.
    pub fn last_port_path(home: &str) -> (r: String)
        ensures
            r@ == join_path(home@, ".config/cosmic-share-browser/last_port"@),
    {
        join_path_exec(home, ".config/cosmic-share-browser/last_port")
    }
}

} // verus!
