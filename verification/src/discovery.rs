//! Network shares: how the outputs of `avahi-browse`, `ip -o addr show` and
//! `gio mount --list` are read.
use vstd::prelude::*;
use crate::text::{
    chars_of, chars_eq, contains_string, copy_chars, decimal, ends_with_char, find, find_chars,
    lines, owned, parse_u16, parse_u16_chars, push_decimal, split, split_chars, split_lines,
    split_words, string_of, string_views, views, words,
};

verus! {

/// A WebDAV share announced on the local network.
#[derive(Debug)]
pub struct Share {
    pub hostname: String,
    pub port: u16,
    pub uri: String,
}

pub struct ShareView {
    pub hostname: Seq<char>,
    pub port: u16,
    pub uri: Seq<char>,
}

impl View for Share {
    type V = ShareView;

    open spec fn view(&self) -> ShareView {
        ShareView { hostname: self.hostname@, port: self.port, uri: self.uri@ }
    }
}

impl Clone for Share {
    fn clone(&self) -> (r: Self)
        ensures
            r@ == self@,
    {
        Share { hostname: self.hostname.clone(), port: self.port, uri: self.uri.clone() }
    }
}

/// `dav://<host>:<port>/`, the address `gio` mounts a share by.
pub open spec fn share_uri(hostname: Seq<char>, port: u16) -> Seq<char> {
    "dav://"@ + hostname + ":"@ + decimal(port as nat) + "/"@
}

pub open spec fn share_of(key: (Seq<char>, u16)) -> ShareView {
    ShareView { hostname: key.0, port: key.1, uri: share_uri(key.0, key.1) }
}

pub open spec fn share_views(v: Seq<Share>) -> Seq<ShareView> {
    v.map_values(|s: Share| s@)
}

/// The share that one line of `avahi-browse --parsable --resolve` output
/// announces: resolved lines start with `=` and have at least ten
/// `;`-separated fields, the host name (without its final dot) in the
/// seventh, the address in the eighth and the port in the ninth. Lines with
/// no host name, a port that is not a non-zero number, or one of this
/// machine's own addresses announce none.
pub open spec fn avahi_entry(line: Seq<char>, local_ips: Seq<Seq<char>>) -> Option<(Seq<char>, u16)> {
    let parts = split(line, ';');
    if !(line.len() > 0 && line[0] == '=') || parts.len() < 10 {
        None
    } else {
        let host = if ends_with_char(parts[6], '.') {
            parts[6].drop_last()
        } else {
            parts[6]
        };
        let port: u16 = match parse_u16(parts[8]) {
            Some(p) => p,
            None => 0,
        };
        if host.len() == 0 || port == 0 || local_ips.contains(parts[7]) {
            None
        } else {
            Some((host, port))
        }
    }
}

/// The host and port pairs that the lines announce, each once, in the order
/// of their first announcement.
pub open spec fn avahi_keys(lines: Seq<Seq<char>>, local_ips: Seq<Seq<char>>) -> Seq<(Seq<char>, u16)>
    decreases lines.len(),
{
    if lines.len() == 0 {
        seq![]
    } else {
        let prev = avahi_keys(lines.drop_last(), local_ips);
        match avahi_entry(lines.last(), local_ips) {
            Some(k) => if prev.contains(k) {
                prev
            } else {
                prev.push(k)
            },
            None => prev,
        }
    }
}

pub open spec fn avahi_shares(output: Seq<char>, local_ips: Seq<Seq<char>>) -> Seq<ShareView> {
    avahi_keys(lines(output), local_ips).map_values(|k: (Seq<char>, u16)| share_of(k))
}

/// The address on one line of `ip -o addr show` output: the fourth word,
/// up to its first `/`.
pub open spec fn local_ip_of(line: Seq<char>) -> Option<Seq<char>> {
    let w = words(line);
    if w.len() > 3 && split(w[3], '/')[0].len() > 0 {
        Some(split(w[3], '/')[0])
    } else {
        None
    }
}

/// The items that `f` picks out of the lines, in order.
pub open spec fn pick(lines: Seq<Seq<char>>, f: spec_fn(Seq<char>) -> Option<Seq<char>>) -> Seq<
    Seq<char>,
>
    decreases lines.len(),
{
    if lines.len() == 0 {
        seq![]
    } else {
        let prev = pick(lines.drop_last(), f);
        match f(lines.last()) {
            Some(x) => prev.push(x),
            None => prev,
        }
    }
}

/// The mount address on one line of `gio mount --list` output: the word that
/// begins at the first `dav://`.
pub open spec fn mounted_uri_of(line: Seq<char>) -> Option<Seq<char>> {
    match find(line, "dav://"@) {
        Some(pos) => {
            let w = words(line.skip(pos));
            if w.len() > 0 {
                Some(w[0])
            } else {
                None
            }
        },
        None => None,
    }
}

/// Each host and port pair is listed once.
pub proof fn lemma_avahi_keys_distinct(lines: Seq<Seq<char>>, local_ips: Seq<Seq<char>>)
    ensures
        forall|i: int, j: int|
            0 <= i < j < avahi_keys(lines, local_ips).len() ==> avahi_keys(lines, local_ips)[i]
                != avahi_keys(lines, local_ips)[j],
    decreases lines.len(),
{
    if lines.len() > 0 {
        lemma_avahi_keys_distinct(lines.drop_last(), local_ips);
        let prev = avahi_keys(lines.drop_last(), local_ips);
        match avahi_entry(lines.last(), local_ips) {
            Some(k) => {
                if !prev.contains(k) {
                    let keys = prev.push(k);
                    assert forall|i: int, j: int| 0 <= i < j < keys.len() implies keys[i]
                        != keys[j] by {
                        if j == prev.len() {
                            assert(keys[i] == prev[i]);
                        } else {
                            assert(keys[i] == prev[i] && keys[j] == prev[j]);
                        }
                    }
                }
            },
            None => {},
        }
    }
}

/// Every share listed was announced on some line from an address that is
/// not one of this machine's own.
pub proof fn lemma_listed_shares_are_remote(lines: Seq<Seq<char>>, local_ips: Seq<Seq<char>>)
    ensures
        forall|i: int|
            0 <= i < avahi_keys(lines, local_ips).len() ==> exists|j: int|
                0 <= j < lines.len() && avahi_entry(lines[j], local_ips) == Some(
                    #[trigger] avahi_keys(lines, local_ips)[i],
                ) && !local_ips.contains(split(lines[j], ';')[7]),
    decreases lines.len(),
{
    if lines.len() > 0 {
        lemma_listed_shares_are_remote(lines.drop_last(), local_ips);
        let prev = avahi_keys(lines.drop_last(), local_ips);
        let keys = avahi_keys(lines, local_ips);
        assert forall|i: int| 0 <= i < keys.len() implies exists|j: int|
            0 <= j < lines.len() && avahi_entry(lines[j], local_ips) == Some(#[trigger] keys[i])
                && !local_ips.contains(split(lines[j], ';')[7]) by {
            if i < prev.len() {
                assert(keys[i] == prev[i]);
                let j = choose|j: int|
                    0 <= j < lines.drop_last().len() && avahi_entry(lines.drop_last()[j], local_ips)
                        == Some(#[trigger] prev[i]) && !local_ips.contains(
                        split(lines.drop_last()[j], ';')[7],
                    );
                assert(lines[j] == lines.drop_last()[j]);
            } else {
                assert(avahi_entry(lines[lines.len() - 1], local_ips) == Some(keys[i]));
            }
        }
    }
}

impl Share {
    pub fn new(hostname: String, port: u16) -> (r: Share)
        ensures
            r@ == share_of((hostname@, port)),
    {
        let mut uri = owned("dav://");
        uri.append(hostname.as_str());
        uri.append(":");
        push_decimal(&mut uri, port as u64);
        uri.append("/");
        Share { hostname, port, uri }
    }
}

fn key_seen(keys: &Vec<(Vec<char>, u16)>, host: &Vec<char>, port: u16) -> (r: bool)
    ensures
        r == keys@.map_values(|k: (Vec<char>, u16)| (k.0@, k.1)).contains((host@, port)),
{
    let ghost kv = keys@.map_values(|k: (Vec<char>, u16)| (k.0@, k.1));
    let mut i: usize = 0;
    while i < keys.len()
        invariant
            i <= keys.len(),
            kv == keys@.map_values(|k: (Vec<char>, u16)| (k.0@, k.1)),
            forall|j: int| 0 <= j < i ==> kv[j] != (host@, port),
        decreases keys.len() - i,
    {
        if keys[i].1 == port && chars_eq(&keys[i].0, host) {
            assert(kv[i as int] == (host@, port));
            return true;
        }
        i += 1;
    }
    false
}

/// The share that one line announces.
fn avahi_line(line: &Vec<char>, local_ips: &Vec<String>) -> (r: Option<(Vec<char>, u16)>)
    ensures
        match r {
            Some(k) => avahi_entry(line@, string_views(local_ips@)) == Some((k.0@, k.1)),
            None => avahi_entry(line@, string_views(local_ips@)) is None,
        },
{
    if line.len() == 0 || line[0] != '=' {
        return None;
    }
    let parts = split_chars(line, ';');
    if parts.len() < 10 {
        return None;
    }
    proof {
        assert(views(parts@)[6] == parts@[6]@);
        assert(views(parts@)[7] == parts@[7]@);
        assert(views(parts@)[8] == parts@[8]@);
    }
    let mut host = copy_chars(&parts[6]);
    if host.len() > 0 && host[host.len() - 1] == '.' {
        host.pop();
    }
    let port: u16 = match parse_u16_chars(&parts[8]) {
        Some(p) => p,
        None => 0,
    };
    if host.len() == 0 || port == 0 {
        return None;
    }
    let addr = string_of(&parts[7]);
    if contains_string(local_ips, &addr) {
        return None;
    }
    Some((host, port))
}

/// The shares announced in `avahi-browse --terminate --resolve --parsable`
/// output, leaving out this machine's own (those at one of `local_ips`).
pub fn parse_avahi_output(output: &str, local_ips: &Vec<String>) -> (r: Vec<Share>)
    ensures
        share_views(r@) == avahi_shares(output@, string_views(local_ips@)),
{
    let chars = chars_of(output);
    let all = split_lines(&chars);
    let ghost ls = lines(output@);
    let ghost local = string_views(local_ips@);
    let mut keys: Vec<(Vec<char>, u16)> = Vec::new();
    let mut shares: Vec<Share> = Vec::new();
    let mut i: usize = 0;
    while i < all.len()
        invariant
            i <= all.len(),
            views(all@) == ls,
            local == string_views(local_ips@),
            keys@.map_values(|k: (Vec<char>, u16)| (k.0@, k.1)) == avahi_keys(ls.take(i as int), local),
            share_views(shares@) == avahi_keys(ls.take(i as int), local).map_values(
                |k: (Seq<char>, u16)| share_of(k),
            ),
        decreases all.len() - i,
    {
        let ghost prev_keys = avahi_keys(ls.take(i as int), local);
        assert(ls.take(i + 1).drop_last() =~= ls.take(i as int));
        assert(ls.take(i + 1).last() == all@[i as int]@);
        match avahi_line(&all[i], local_ips) {
            Some(k) => {
                let (host, port) = k;
                if !key_seen(&keys, &host, port) {
                    let name = string_of(&host);
                    let ghost kv = (host@, port);
                    let ghost old_views = share_views(shares@);
                    keys.push((host, port));
                    let share = Share::new(name, port);
                    assert(share@ == share_of(kv));
                    shares.push(share);
                    assert(share_views(shares@) =~= old_views.push(share_of(kv)));
                    assert(prev_keys.push(kv).map_values(|k: (Seq<char>, u16)| share_of(k))
                        =~= prev_keys.map_values(|k: (Seq<char>, u16)| share_of(k)).push(
                        share_of(kv),
                    ));
                    assert(keys@.map_values(|k: (Vec<char>, u16)| (k.0@, k.1)) =~= prev_keys.push(kv));
                    assert(share_views(shares@) =~= prev_keys.push(kv).map_values(
                        |k: (Seq<char>, u16)| share_of(k),
                    ));
                }
            },
            None => {},
        }
        i += 1;
    }
    assert(ls.take(all.len() as int) =~= ls);
    shares
}

/// The addresses of this machine, read from `ip -o addr show` output.
pub fn parse_local_ips(output: &str) -> (r: Vec<String>)
    ensures
        string_views(r@) == pick(lines(output@), |l: Seq<char>| local_ip_of(l)),
{
    let chars = chars_of(output);
    let all = split_lines(&chars);
    let ghost ls = lines(output@);
    let ghost f = |l: Seq<char>| local_ip_of(l);
    let mut r: Vec<String> = Vec::new();
    let mut i: usize = 0;
    while i < all.len()
        invariant
            i <= all.len(),
            views(all@) == ls,
            f == |l: Seq<char>| local_ip_of(l),
            string_views(r@) == pick(ls.take(i as int), f),
        decreases all.len() - i,
    {
        assert(ls.take(i + 1).drop_last() =~= ls.take(i as int));
        assert(ls.take(i + 1).last() == all@[i as int]@);
        let ghost expected = local_ip_of(all@[i as int]@);
        let ghost prev = pick(ls.take(i as int), f);
        assert(f(ls.take(i + 1).last()) == expected);
        assert(pick(ls.take(i + 1), f) == match expected {
            Some(x) => prev.push(x),
            None => prev,
        });
        let w = split_words(&all[i]);
        if w.len() > 3 {
            assert(views(w@)[3] == w@[3]@);
            let pieces = split_chars(&w[3], '/');
            assert(views(pieces@)[0] == pieces@[0]@);
            if pieces[0].len() > 0 {
                assert(expected == Some(pieces@[0]@));
                let ghost before = string_views(r@);
                r.push(string_of(&pieces[0]));
                assert(string_views(r@) =~= before.push(pieces@[0]@));
            } else {
                assert(expected is None);
            }
        } else {
            assert(expected is None);
        }
        assert(string_views(r@) == pick(ls.take(i + 1), f));
        i += 1;
    }
    assert(ls.take(all.len() as int) =~= ls);
    r
}

/// The mounted WebDAV addresses, read from `gio mount --list` output.
pub fn parse_mounted(output: &str) -> (r: Vec<String>)
    ensures
        string_views(r@) == pick(lines(output@), |l: Seq<char>| mounted_uri_of(l)),
{
    let chars = chars_of(output);
    let all = split_lines(&chars);
    let scheme = chars_of("dav://");
    let ghost ls = lines(output@);
    let ghost f = |l: Seq<char>| mounted_uri_of(l);
    let mut r: Vec<String> = Vec::new();
    let mut i: usize = 0;
    while i < all.len()
        invariant
            i <= all.len(),
            views(all@) == ls,
            scheme@ == "dav://"@,
            f == |l: Seq<char>| mounted_uri_of(l),
            string_views(r@) == pick(ls.take(i as int), f),
        decreases all.len() - i,
    {
        assert(ls.take(i + 1).drop_last() =~= ls.take(i as int));
        assert(ls.take(i + 1).last() == all@[i as int]@);
        let line = &all[i];
        let ghost expected = mounted_uri_of(all@[i as int]@);
        let ghost prev = pick(ls.take(i as int), f);
        assert(f(ls.take(i + 1).last()) == expected);
        assert(pick(ls.take(i + 1), f) == match expected {
            Some(x) => prev.push(x),
            None => prev,
        });
        match find_chars(line, &scheme) {
            Some(pos) => {
                let mut rest: Vec<char> = Vec::new();
                let mut k: usize = pos;
                while k < line.len()
                    invariant
                        pos <= k <= line.len(),
                        rest@ == line@.subrange(pos as int, k as int),
                    decreases line.len() - k,
                {
                    rest.push(line[k]);
                    assert(line@.subrange(pos as int, k + 1) =~= line@.subrange(
                        pos as int,
                        k as int,
                    ).push(line@[k as int]));
                    k += 1;
                }
                assert(rest@ =~= line@.skip(pos as int));
                let w = split_words(&rest);
                if w.len() > 0 {
                    assert(views(w@)[0] == w@[0]@);
                    assert(expected == Some(w@[0]@));
                    let ghost before = string_views(r@);
                    r.push(string_of(&w[0]));
                    assert(string_views(r@) =~= before.push(w@[0]@));
                } else {
                    assert(expected is None);
                }
            },
            None => {
                assert(expected is None);
            },
        }
        i += 1;
    }
    assert(ls.take(all.len() as int) =~= ls);
    r
}

// ---------------------------------------------------------------------------
// The commands whose outputs are read here, and those that mount shares
// ---------------------------------------------------------------------------

pub open spec fn local_ips_command_of() -> Seq<Seq<char>> {
    seq!["ip"@, "-o"@, "addr"@, "show"@]
}

pub open spec fn browse_command_of() -> Seq<Seq<char>> {
    seq!["avahi-browse"@, "--terminate"@, "--resolve"@, "--parsable"@, "_webdav._tcp"@]
}

pub open spec fn mounts_command_of() -> Seq<Seq<char>> {
    seq!["gio"@, "mount"@, "--list"@]
}

pub open spec fn mount_command_of(uri: Seq<char>) -> Seq<Seq<char>> {
    seq!["gio"@, "mount"@, uri]
}

pub open spec fn unmount_command_of(uri: Seq<char>) -> Seq<Seq<char>> {
    seq!["gio"@, "mount"@, "--unmount"@, uri]
}

/// The command that lists this machine's addresses, one per line.
pub fn local_ips_command() -> (r: Vec<String>)
    ensures
        string_views(r@) == local_ips_command_of(),
{
    let r = vec![owned("ip"), owned("-o"), owned("addr"), owned("show")];
    assert(string_views(r@) =~= local_ips_command_of());
    r
}

/// The command that lists the resolved WebDAV services on the network and exits.
pub fn browse_command() -> (r: Vec<String>)
    ensures
        string_views(r@) == browse_command_of(),
{
    let r = vec![
        owned("avahi-browse"),
        owned("--terminate"),
        owned("--resolve"),
        owned("--parsable"),
        owned("_webdav._tcp"),
    ];
    assert(string_views(r@) =~= browse_command_of());
    r
}

/// The command that lists the mounted shares.
pub fn mounts_command() -> (r: Vec<String>)
    ensures
        string_views(r@) == mounts_command_of(),
{
    let r = vec![owned("gio"), owned("mount"), owned("--list")];
    assert(string_views(r@) =~= mounts_command_of());
    r
}

/// The command that mounts the share at `uri`.
pub fn mount_command(uri: &str) -> (r: Vec<String>)
    ensures
        string_views(r@) == mount_command_of(uri@),
{
    let r = vec![owned("gio"), owned("mount"), owned(uri)];
    assert(string_views(r@) =~= mount_command_of(uri@));
    r
}

/// The command that unmounts the share at `uri`.
pub fn unmount_command(uri: &str) -> (r: Vec<String>)
    ensures
        string_views(r@) == unmount_command_of(uri@),
{
    let r = vec![owned("gio"), owned("mount"), owned("--unmount"), owned(uri)];
    assert(string_views(r@) =~= unmount_command_of(uri@));
    r
}

} // verus!
