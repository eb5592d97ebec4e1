//! Firewall backends: how one is detected, the commands that open and close a
//! TCP port in each, and how those commands are combined into a shell script.
use vstd::prelude::*;
use crate::text::{
    all_digits, chars_of, decimal, decimal_string, is_digit, join, join_strings, lemma_decimal,
    owned, push_char, push_decimal, string_views,
};

verus! {

/// The firewall front-ends this project knows how to drive.
#[derive(Debug, Clone, Copy, PartialEq, Eq, Structural)]
pub enum Firewall {
    Ufw,
    Firewalld,
    Nftables,
    Iptables,
    NotDetected,
}

// ---------------------------------------------------------------------------
// Specification
// ---------------------------------------------------------------------------

pub open spec fn name_of(fw: Firewall) -> Seq<char> {
    match fw {
        Firewall::Ufw => "UFW"@,
        Firewall::Firewalld => "firewalld"@,
        Firewall::Nftables => "nftables"@,
        Firewall::Iptables => "iptables"@,
        Firewall::NotDetected => "none detected"@,
    }
}

/// `<port>/tcp`.
pub open spec fn port_tcp(port: u16) -> Seq<char> {
    decimal(port as nat) + "/tcp"@
}

/// The command that allows incoming TCP connections on `port`.
pub open spec fn allow_args_of(fw: Firewall, port: u16) -> Seq<Seq<char>> {
    match fw {
        Firewall::Ufw => seq!["ufw"@, "allow"@, port_tcp(port)],
        Firewall::Firewalld => seq!["firewall-cmd"@, "--add-port="@ + port_tcp(port)],
        Firewall::Nftables => seq![
            "nft"@,
            "add"@,
            "rule"@,
            "inet"@,
            "filter"@,
            "input"@,
            "tcp"@,
            "dport"@,
            decimal(port as nat),
            "accept"@,
        ],
        Firewall::Iptables => seq![
            "iptables"@,
            "-A"@,
            "INPUT"@,
            "-p"@,
            "tcp"@,
            "--dport"@,
            decimal(port as nat),
            "-j"@,
            "ACCEPT"@,
        ],
        Firewall::NotDetected => seq![],
    }
}

/// The nftables rule text that the allow command adds for `port`.
pub open spec fn nft_rule_text(port: u16) -> Seq<char> {
    "tcp dport "@ + decimal(port as nat) + " accept"@
}

/// nftables deletes a rule by its handle: the script looks the handle of the
/// rule up and deletes the rule when it finds one.
pub open spec fn nft_delete_script(port: u16) -> Seq<char> {
    "handle=$(nft -a list chain inet filter input 2>/dev/null | grep '"@ + nft_rule_text(port)
        + "' | grep -oP 'handle \\K\\d+' | head -1); [ -n \"$handle\" ] && nft delete rule inet filter input handle $handle"@
}

/// The command that removes the rule for `port`.
pub open spec fn deny_args_of(fw: Firewall, port: u16) -> Seq<Seq<char>> {
    match fw {
        Firewall::Ufw => seq!["ufw"@, "delete"@, "allow"@, port_tcp(port)],
        Firewall::Firewalld => seq!["firewall-cmd"@, "--remove-port="@ + port_tcp(port)],
        Firewall::Nftables => seq!["sh"@, "-c"@, nft_delete_script(port)],
        Firewall::Iptables => seq![
            "iptables"@,
            "-D"@,
            "INPUT"@,
            "-p"@,
            "tcp"@,
            "--dport"@,
            decimal(port as nat),
            "-j"@,
            "ACCEPT"@,
        ],
        Firewall::NotDetected => seq![],
    }
}

/// The firewalls in the order detection tries them.
pub open spec fn candidate(i: int) -> Firewall {
    if i == 0 {
        Firewall::Ufw
    } else if i == 1 {
        Firewall::Firewalld
    } else if i == 2 {
        Firewall::Nftables
    } else {
        Firewall::Iptables
    }
}

/// The command whose success tells that candidate `i` is in use: the
/// service is active for the first three, the program is installed for the last.
pub open spec fn probe_of(i: int) -> Seq<Seq<char>> {
    if i == 0 {
        seq!["systemctl"@, "is-active"@, "ufw"@]
    } else if i == 1 {
        seq!["systemctl"@, "is-active"@, "firewalld"@]
    } else if i == 2 {
        seq!["systemctl"@, "is-active"@, "nftables"@]
    } else {
        seq!["which"@, "iptables"@]
    }
}

/// What detection does next, given the outcomes of the probes run so far.
pub enum DetectionView {
    Probe(Seq<Seq<char>>),
    Found(Firewall),
}

pub open spec fn detect_from(answers: Seq<bool>, i: nat) -> DetectionView
    decreases 4 - i,
{
    if i >= 4 {
        DetectionView::Found(Firewall::NotDetected)
    } else if i >= answers.len() {
        DetectionView::Probe(probe_of(i as int))
    } else if answers[i as int] {
        DetectionView::Found(candidate(i as int))
    } else {
        detect_from(answers, i + 1)
    }
}

/// Detection: the first candidate whose probe succeeds, asking for the
/// outcome of each probe in turn; `NotDetected` when all four fail.
pub open spec fn detect_spec(answers: Seq<bool>) -> DetectionView {
    detect_from(answers, 0)
}

/// Whether the shell would treat `a` as more than one plain word.
pub open spec fn needs_quoting(a: Seq<char>) -> bool {
    a.contains(' ') || a.contains(';') || a.contains('&') || a.contains('|') || a.contains('$')
}

/// Every `'` replaced by `'\''`.
pub open spec fn escape_quotes(a: Seq<char>) -> Seq<char>
    decreases a.len(),
{
    if a.len() == 0 {
        seq![]
    } else {
        (if a[0] == '\'' {
            "'\\''"@
        } else {
            seq![a[0]]
        }) + escape_quotes(a.drop_first())
    }
}

pub open spec fn escape_arg(a: Seq<char>) -> Seq<char> {
    if needs_quoting(a) {
        "'"@ + escape_quotes(a) + "'"@
    } else {
        a
    }
}

/// The arguments as one shell command line.
pub open spec fn shell_escape(args: Seq<Seq<char>>) -> Seq<char> {
    join(args.map_values(|a: Seq<char>| escape_arg(a)), " "@)
}

/// How a POSIX shell reads one word: `'...'` is taken literally, `\c` outside
/// quotes stands for `c`, any other character for itself.
pub open spec fn shell_read_from(s: Seq<char>, quoted: bool) -> Seq<char>
    decreases s.len(),
{
    if s.len() == 0 {
        seq![]
    } else if quoted {
        if s[0] == '\'' {
            shell_read_from(s.drop_first(), false)
        } else {
            seq![s[0]] + shell_read_from(s.drop_first(), true)
        }
    } else if s[0] == '\'' {
        shell_read_from(s.drop_first(), true)
    } else if s[0] == '\\' && s.len() >= 2 {
        seq![s[1]] + shell_read_from(s.skip(2), false)
    } else {
        seq![s[0]] + shell_read_from(s.drop_first(), false)
    }
}

pub open spec fn shell_read(word: Seq<char>) -> Seq<char> {
    shell_read_from(word, false)
}

/// How a POSIX shell splits a command line into words and removes quotes:
/// unquoted spaces separate words, `'...'` is taken literally, `\c` outside
/// quotes stands for `c`. `cur` is the word being read, `in_word` whether one
/// has begun, `quoted` whether a single-quoted part is open.
pub open spec fn shell_words_from(s: Seq<char>, cur: Seq<char>, in_word: bool, quoted: bool) -> Seq<
    Seq<char>,
>
    decreases s.len(),
{
    if s.len() == 0 {
        if in_word {
            seq![cur]
        } else {
            seq![]
        }
    } else if quoted {
        if s[0] == '\'' {
            shell_words_from(s.drop_first(), cur, true, false)
        } else {
            shell_words_from(s.drop_first(), cur.push(s[0]), true, true)
        }
    } else if s[0] == ' ' {
        (if in_word {
            seq![cur]
        } else {
            seq![]
        }) + shell_words_from(s.drop_first(), seq![], false, false)
    } else if s[0] == '\'' {
        shell_words_from(s.drop_first(), cur, true, true)
    } else if s[0] == '\\' && s.len() >= 2 {
        shell_words_from(s.skip(2), cur.push(s[1]), true, false)
    } else {
        shell_words_from(s.drop_first(), cur.push(s[0]), true, false)
    }
}

pub open spec fn shell_words(line: Seq<char>) -> Seq<Seq<char>> {
    shell_words_from(line, seq![], false, false)
}

/// A word the shell passes on unchanged without quoting.
pub open spec fn is_plain(a: Seq<char>) -> bool {
    forall|i: int|
        0 <= i < a.len() ==> #[trigger] a[i] != ' ' && a[i] != '\t' && a[i] != '\n' && a[i]
            != '\'' && a[i] != '"' && a[i] != '\\'
}

/// An argument that the escaping hands to the shell intact.
pub open spec fn passes_intact(a: Seq<char>) -> bool {
    a.len() > 0 && (needs_quoting(a) || is_plain(a))
}

pub open spec fn with_pkexec(args: Seq<Seq<char>>) -> Seq<Seq<char>> {
    seq!["pkexec"@] + args
}

/// The script that closes `old` (when it is a different port) and opens `new`.
pub open spec fn swap_script(fw: Firewall, old: Option<u16>, new: u16) -> Seq<char> {
    let close = match old {
        Some(o) => if o != new && deny_args_of(fw, o).len() > 0 {
            shell_escape(deny_args_of(fw, o)) + "; "@
        } else {
            seq![]
        },
        None => seq![],
    };
    close + shell_escape(allow_args_of(fw, new))
}

// ---------------------------------------------------------------------------
// Laws
// ---------------------------------------------------------------------------

/// A firewall has a command to open and to close a port exactly when one was detected.
pub proof fn lemma_commands_exist_iff_detected(fw: Firewall, port: u16)
    ensures
        (allow_args_of(fw, port).len() == 0) <==> (fw == Firewall::NotDetected),
        (deny_args_of(fw, port).len() == 0) <==> (fw == Firewall::NotDetected),
{
}

/// The close command of each firewall removes the very rule its open command adds:
/// the same port and protocol, with only the action changed.
pub proof fn lemma_deny_undoes_allow(fw: Firewall, port: u16)
    ensures
        fw == Firewall::Ufw ==> deny_args_of(fw, port) == seq![
            allow_args_of(fw, port)[0],
            "delete"@,
        ] + allow_args_of(fw, port).skip(1),
        fw == Firewall::Firewalld ==> allow_args_of(fw, port)[1] == "--add-port="@ + port_tcp(port)
            && deny_args_of(fw, port)[1] == "--remove-port="@ + port_tcp(port),
        fw == Firewall::Iptables ==> allow_args_of(fw, port)[1] == "-A"@ && deny_args_of(
            fw,
            port,
        ) == allow_args_of(fw, port).update(1, "-D"@),
        fw == Firewall::Nftables ==> exists|i: int|
            0 <= i && i + nft_rule_text(port).len() <= deny_args_of(fw, port)[2].len()
                && #[trigger] deny_args_of(fw, port)[2].subrange(
                i,
                i + nft_rule_text(port).len(),
            ) == join(allow_args_of(fw, port).skip(6), " "@),
{
    if fw == Firewall::Ufw {
        assert(deny_args_of(fw, port) =~= seq![allow_args_of(fw, port)[0], "delete"@]
            + allow_args_of(fw, port).skip(1));
    }
    if fw == Firewall::Iptables {
        assert(deny_args_of(fw, port) =~= allow_args_of(fw, port).update(1, "-D"@));
    }
    if fw == Firewall::Nftables {
        let tail = allow_args_of(fw, port).skip(6);
        assert(tail =~= seq!["tcp"@, "dport"@, decimal(port as nat), "accept"@]);
        reveal_strlit("tcp dport ");
        reveal_strlit(" accept");
        reveal_strlit("tcp");
        reveal_strlit("dport");
        reveal_strlit("accept");
        reveal_strlit(" ");
        let t1 = tail.drop_last().drop_last().drop_last();
        let t2 = tail.drop_last().drop_last();
        let t3 = tail.drop_last();
        assert(t1 =~= seq!["tcp"@]);
        assert(t2 =~= seq!["tcp"@, "dport"@]);
        assert(t3 =~= seq!["tcp"@, "dport"@, decimal(port as nat)]);
        assert(join(t1, " "@) == "tcp"@);
        assert(join(t2, " "@) == "tcp"@ + " "@ + "dport"@);
        assert(join(t3, " "@) == "tcp"@ + " "@ + "dport"@ + " "@ + decimal(port as nat));
        assert(join(tail, " "@) == "tcp"@ + " "@ + "dport"@ + " "@ + decimal(port as nat) + " "@
            + "accept"@);
        assert(join(tail, " "@) =~= nft_rule_text(port));
        let head = "handle=$(nft -a list chain inet filter input 2>/dev/null | grep '"@;
        let script = deny_args_of(fw, port)[2];
        assert(script.subrange(head.len() as int, (head.len() + nft_rule_text(port).len()) as int)
            =~= nft_rule_text(port));
    }
}

/// An argument that has to be quoted reads back, through the shell, as itself.
pub proof fn lemma_quoted_arg_reads_back(a: Seq<char>)
    requires
        needs_quoting(a),
    ensures
        shell_read(escape_arg(a)) == a,
{
    lemma_escape_quotes_read(a, "'"@);
    reveal_strlit("'");
    assert(shell_read_from(seq!['\''], true) =~= Seq::<char>::empty()) by {
        assert(seq!['\''][0] == '\'');
        assert(seq!['\''].drop_first() =~= Seq::<char>::empty());
        assert(shell_read_from(Seq::<char>::empty(), false) == Seq::<char>::empty());
    }
    assert("'"@ =~= seq!['\'']);
    let w = "'"@ + escape_quotes(a) + "'"@;
    assert(w.drop_first() =~= escape_quotes(a) + "'"@);
    assert(a + Seq::<char>::empty() =~= a);
}

/// Inside single quotes, the escaped text reads back as the unescaped text.
proof fn lemma_escape_quotes_read(a: Seq<char>, rest: Seq<char>)
    ensures
        shell_read_from(escape_quotes(a) + rest, true) == a + shell_read_from(rest, true),
    decreases a.len(),
{
    if a.len() == 0 {
        assert(escape_quotes(a) + rest =~= rest);
        assert(a + shell_read_from(rest, true) =~= shell_read_from(rest, true));
    } else {
        lemma_escape_quotes_read(a.drop_first(), rest);
        let tail = escape_quotes(a.drop_first()) + rest;
        if a[0] == '\'' {
            reveal_strlit("'\\''");
            let s = "'\\''"@ + tail;
            assert(escape_quotes(a) + rest =~= s);
            let s1 = s.drop_first();
            let s2 = seq!['\''] + tail;
            assert(s[0] == '\'');
            assert(s1 =~= seq!['\\', '\'', '\''] + tail);
            assert(s1[0] == '\\' && s1[1] == '\'');
            assert(s1.skip(2) =~= s2);
            assert(s2[0] == '\'');
            assert(s2.drop_first() =~= tail);
            assert(shell_read_from(s2, false) == shell_read_from(tail, true));
            assert(shell_read_from(s1, false) == seq!['\''] + shell_read_from(s2, false));
            assert(shell_read_from(s, true) == shell_read_from(s1, false));
            assert(a =~= seq!['\''] + a.drop_first());
            assert(shell_read_from(s, true) =~= seq!['\''] + shell_read_from(tail, true));
        } else {
            let s = seq![a[0]] + tail;
            assert(escape_quotes(a) + rest =~= s);
            assert(s.drop_first() =~= tail);
            assert(a =~= seq![a[0]] + a.drop_first());
        }
        assert(a + shell_read_from(rest, true) =~= seq![a[0]] + (a.drop_first() + shell_read_from(
            rest,
            true,
        )));
    }
}

proof fn lemma_read_escaped_quotes(a: Seq<char>, t: Seq<char>, cur: Seq<char>)
    ensures
        shell_words_from(escape_quotes(a) + t, cur, true, true) == shell_words_from(
            t,
            cur + a,
            true,
            true,
        ),
    decreases a.len(),
{
    if a.len() == 0 {
        assert(escape_quotes(a) + t =~= t);
        assert(cur + a =~= cur);
    } else {
        let tail = escape_quotes(a.drop_first()) + t;
        if a[0] == '\'' {
            reveal_strlit("'\\''");
            let s = "'\\''"@ + tail;
            assert(escape_quotes(a) + t =~= s);
            let s1 = s.drop_first();
            let s2 = seq!['\''] + tail;
            assert(s[0] == '\'');
            assert(s1 =~= seq!['\\', '\'', '\''] + tail);
            assert(s1[0] == '\\' && s1[1] == '\'');
            assert(s1.skip(2) =~= s2);
            assert(s2[0] == '\'');
            assert(s2.drop_first() =~= tail);
            lemma_read_escaped_quotes(a.drop_first(), t, cur.push('\''));
            assert(shell_words_from(s2, cur.push('\''), true, false) == shell_words_from(
                tail,
                cur.push('\''),
                true,
                true,
            ));
            assert(shell_words_from(s1, cur, true, false) == shell_words_from(
                s2,
                cur.push('\''),
                true,
                false,
            ));
            assert(shell_words_from(s, cur, true, true) == shell_words_from(s1, cur, true, false));
            assert(cur.push('\'') + a.drop_first() =~= cur + a);
        } else {
            let s = seq![a[0]] + tail;
            assert(escape_quotes(a) + t =~= s);
            assert(s.drop_first() =~= tail);
            assert(s[0] == a[0]);
            lemma_read_escaped_quotes(a.drop_first(), t, cur.push(a[0]));
            assert(shell_words_from(s, cur, true, true) == shell_words_from(
                tail,
                cur.push(a[0]),
                true,
                true,
            ));
            assert(cur.push(a[0]) + a.drop_first() =~= cur + a);
        }
    }
}

proof fn lemma_read_plain(a: Seq<char>, t: Seq<char>, cur: Seq<char>, in_word: bool)
    requires
        is_plain(a),
    ensures
        shell_words_from(a + t, cur, in_word, false) == shell_words_from(
            t,
            cur + a,
            in_word || a.len() > 0,
            false,
        ),
    decreases a.len(),
{
    if a.len() == 0 {
        assert(a + t =~= t);
        assert(cur + a =~= cur);
    } else {
        let s = a + t;
        assert(s[0] == a[0]);
        assert(s.drop_first() =~= a.drop_first() + t);
        assert(a[0] != ' ' && a[0] != '\'' && a[0] != '\\');
        assert(is_plain(a.drop_first())) by {
            assert forall|i: int| 0 <= i < a.drop_first().len() implies #[trigger] a.drop_first()[i]
                != ' ' && a.drop_first()[i] != '\t' && a.drop_first()[i] != '\n'
                && a.drop_first()[i] != '\'' && a.drop_first()[i] != '"' && a.drop_first()[i]
                != '\\' by {
                assert(a.drop_first()[i] == a[i + 1]);
            }
        }
        lemma_read_plain(a.drop_first(), t, cur.push(a[0]), true);
        assert(cur.push(a[0]) + a.drop_first() =~= cur + a);
    }
}

proof fn lemma_read_escaped_arg(a: Seq<char>, t: Seq<char>)
    requires
        passes_intact(a),
    ensures
        shell_words_from(escape_arg(a) + t, seq![], false, false) == shell_words_from(
            t,
            a,
            true,
            false,
        ),
{
    if needs_quoting(a) {
        reveal_strlit("'");
        let s = "'"@ + escape_quotes(a) + "'"@ + t;
        assert(escape_arg(a) + t =~= s);
        assert(s[0] == '\'');
        assert(s.drop_first() =~= escape_quotes(a) + (seq!['\''] + t));
        lemma_read_escaped_quotes(a, seq!['\''] + t, seq![]);
        assert(Seq::<char>::empty() + a =~= a);
        assert((seq!['\''] + t)[0] == '\'');
        assert((seq!['\''] + t).drop_first() =~= t);
    } else {
        lemma_read_plain(a, t, seq![], false);
        assert(Seq::<char>::empty() + a =~= a);
    }
}

proof fn lemma_join_front(x: Seq<char>, r: Seq<Seq<char>>, sep: Seq<char>)
    requires
        r.len() >= 1,
    ensures
        join(seq![x] + r, sep) == x + sep + join(r, sep),
    decreases r.len(),
{
    let whole = seq![x] + r;
    assert(whole.drop_last() =~= seq![x] + r.drop_last());
    assert(whole.last() == r.last());
    if r.len() == 1 {
        assert(seq![x] + r.drop_last() =~= seq![x]);
        assert(join(seq![x], sep) == x);
        assert(r.drop_last().len() == 0);
        assert(join(r, sep) == r[0]);
    } else {
        lemma_join_front(x, r.drop_last(), sep);
        assert(x + sep + join(r.drop_last(), sep) + sep + r.last() =~= x + sep + (join(
            r.drop_last(),
            sep,
        ) + sep + r.last()));
    }
}

/// A command line made by the escaping splits, in the shell, into exactly
/// the arguments it was made of, when each argument is non-empty and either
/// needs quoting or holds no blank, quote or backslash.
pub proof fn lemma_escaped_line_reads_back(args: Seq<Seq<char>>)
    requires
        forall|i: int| 0 <= i < args.len() ==> #[trigger] passes_intact(args[i]),
    ensures
        shell_words(shell_escape(args)) == args,
    decreases args.len(),
{
    let esc = args.map_values(|a: Seq<char>| escape_arg(a));
    if args.len() == 0 {
        assert(shell_escape(args) =~= Seq::<char>::empty());
        assert(shell_words(Seq::<char>::empty()) =~= args);
    } else {
        let a = args[0];
        assert(passes_intact(a));
        let rest = args.drop_first();
        assert forall|i: int| 0 <= i < rest.len() implies #[trigger] passes_intact(rest[i]) by {
            assert(rest[i] == args[i + 1]);
        }
        lemma_escaped_line_reads_back(rest);
        let rest_esc = rest.map_values(|a: Seq<char>| escape_arg(a));
        assert(esc =~= seq![escape_arg(a)] + rest_esc);
        if args.len() == 1 {
            assert(esc =~= seq![escape_arg(a)]);
            assert(shell_escape(args) == escape_arg(a));
            lemma_read_escaped_arg(a, seq![]);
            assert(escape_arg(a) + Seq::<char>::empty() =~= escape_arg(a));
            assert(shell_words(shell_escape(args)) =~= seq![a]);
            assert(args =~= seq![a]);
        } else {
            lemma_join_front(escape_arg(a), rest_esc, " "@);
            reveal_strlit(" ");
            let j = join(rest_esc, " "@);
            assert(shell_escape(args) =~= escape_arg(a) + (seq![' '] + j));
            lemma_read_escaped_arg(a, seq![' '] + j);
            assert((seq![' '] + j)[0] == ' ');
            assert((seq![' '] + j).drop_first() =~= j);
            assert(shell_words_from(seq![' '] + j, a, true, false) == seq![a] + shell_words(j));
            assert(args =~= seq![a] + rest);
        }
    }
}

proof fn lemma_plain_concat(a: Seq<char>, b: Seq<char>)
    requires
        is_plain(a),
        is_plain(b),
    ensures
        is_plain(a + b),
{
    assert forall|i: int| 0 <= i < (a + b).len() implies #[trigger] (a + b)[i] != ' ' && (a
        + b)[i] != '\t' && (a + b)[i] != '\n' && (a + b)[i] != '\'' && (a + b)[i] != '"' && (a
        + b)[i] != '\\' by {
        if i < a.len() {
            assert((a + b)[i] == a[i]);
        } else {
            assert((a + b)[i] == b[i - a.len()]);
        }
    }
}

proof fn lemma_decimal_plain(n: nat)
    ensures
        is_plain(decimal(n)),
        decimal(n).len() > 0,
{
    lemma_decimal(n);
    assert forall|i: int| 0 <= i < decimal(n).len() implies #[trigger] decimal(n)[i] != ' '
        && decimal(n)[i] != '\t' && decimal(n)[i] != '\n' && decimal(n)[i] != '\'' && decimal(
        n,
    )[i] != '"' && decimal(n)[i] != '\\' by {
        assert(is_digit(decimal(n)[i]));
    }
}

/// Each firewall command, written as one shell command line, splits in the
/// shell into exactly its arguments; so the combined script runs the same
/// commands as running them one by one.
pub proof fn lemma_firewall_commands_read_back(fw: Firewall, port: u16)
    ensures
        shell_words(shell_escape(allow_args_of(fw, port))) == allow_args_of(fw, port),
        shell_words(shell_escape(deny_args_of(fw, port))) == deny_args_of(fw, port),
{
    lemma_decimal_plain(port as nat);
    let d = decimal(port as nat);
    reveal_strlit("/tcp");
    lemma_plain_concat(d, "/tcp"@);
    reveal_strlit("--add-port=");
    reveal_strlit("--remove-port=");
    lemma_plain_concat("--add-port="@, port_tcp(port));
    lemma_plain_concat("--remove-port="@, port_tcp(port));
    reveal_strlit("ufw");
    reveal_strlit("allow");
    reveal_strlit("delete");
    reveal_strlit("firewall-cmd");
    reveal_strlit("nft");
    reveal_strlit("add");
    reveal_strlit("rule");
    reveal_strlit("inet");
    reveal_strlit("filter");
    reveal_strlit("input");
    reveal_strlit("tcp");
    reveal_strlit("dport");
    reveal_strlit("accept");
    reveal_strlit("iptables");
    reveal_strlit("-A");
    reveal_strlit("-D");
    reveal_strlit("INPUT");
    reveal_strlit("-p");
    reveal_strlit("--dport");
    reveal_strlit("-j");
    reveal_strlit("ACCEPT");
    reveal_strlit("sh");
    reveal_strlit("-c");
    reveal_strlit("handle=$(nft -a list chain inet filter input 2>/dev/null | grep '");
    let head = "handle=$(nft -a list chain inet filter input 2>/dev/null | grep '"@;
    let script = nft_delete_script(port);
    assert(script[6] == head[6]);
    assert(script[6] == '=' && script[7] == '$');
    assert(script.contains('$'));
    let allow = allow_args_of(fw, port);
    let deny = deny_args_of(fw, port);
    assert forall|i: int| 0 <= i < allow.len() implies #[trigger] passes_intact(allow[i]) by {}
    assert forall|i: int| 0 <= i < deny.len() implies #[trigger] passes_intact(deny[i]) by {}
    lemma_escaped_line_reads_back(allow);
    lemma_escaped_line_reads_back(deny);
}

/// The combined script closes the old port first when it differs from the
/// new one, and otherwise only opens the new port.
pub proof fn lemma_swap_script_order(fw: Firewall, old: Option<u16>, new: u16)
    requires
        fw != Firewall::NotDetected,
    ensures
        old == Some(new) || old is None ==> swap_script(fw, old, new) == shell_escape(
            allow_args_of(fw, new),
        ),
        old is Some && old->0 != new ==> swap_script(fw, old, new) == shell_escape(
            deny_args_of(fw, old->0),
        ) + "; "@ + shell_escape(allow_args_of(fw, new)),
{
    assert(seq![] + shell_escape(allow_args_of(fw, new)) =~= shell_escape(allow_args_of(fw, new)));
}

// ---------------------------------------------------------------------------
// Executable functions
// ---------------------------------------------------------------------------

/// What detection does next.
pub enum Detection {
    /// Run this command and pass on whether it succeeded.
    Probe(Vec<String>),
    /// Detection is over.
    Found(Firewall),
}

pub open spec fn detection_view(d: Detection) -> DetectionView {
    match d {
        Detection::Probe(cmd) => DetectionView::Probe(string_views(cmd@)),
        Detection::Found(fw) => DetectionView::Found(fw),
    }
}

fn probe(i: usize) -> (r: Vec<String>)
    requires
        i < 4,
    ensures
        string_views(r@) == probe_of(i as int),
{
    let mut r: Vec<String> = Vec::new();
    if i < 3 {
        r.push(owned("systemctl"));
        r.push(owned("is-active"));
        if i == 0 {
            r.push(owned("ufw"));
        } else if i == 1 {
            r.push(owned("firewalld"));
        } else {
            r.push(owned("nftables"));
        }
    } else {
        r.push(owned("which"));
        r.push(owned("iptables"));
    }
    assert(string_views(r@) =~= probe_of(i as int));
    r
}

fn candidate_at(i: usize) -> (fw: Firewall)
    requires
        i < 4,
    ensures
        fw == candidate(i as int),
{
    if i == 0 {
        Firewall::Ufw
    } else if i == 1 {
        Firewall::Firewalld
    } else if i == 2 {
        Firewall::Nftables
    } else {
        Firewall::Iptables
    }
}

/// `"<port>/tcp"`.
fn port_tcp_string(port: u16) -> (r: String)
    ensures
        r@ == port_tcp(port),
{
    let mut r = decimal_string(port as u64);
    r.append("/tcp");
    r
}

/// `"<port>/tcp"` with `prefix` in front.
fn port_arg(prefix: &str, port: u16) -> (r: String)
    ensures
        r@ == prefix@ + port_tcp(port),
{
    let mut r = owned(prefix);
    push_decimal(&mut r, port as u64);
    r.append("/tcp");
    assert(r@ =~= prefix@ + port_tcp(port));
    r
}

/// The views of an optional command.
pub open spec fn command_view(c: Option<Vec<String>>) -> Option<Seq<Seq<char>>> {
    match c {
        Some(v) => Some(string_views(v@)),
        None => None,
    }
}

fn is_special(c: char) -> (r: bool)
    ensures
        r == (c == ' ' || c == ';' || c == '&' || c == '|' || c == '$'),
{
    c == ' ' || c == ';' || c == '&' || c == '|' || c == '$'
}

/// One argument as the shell must be given it.
fn escape_one(a: &String) -> (r: String)
    ensures
        r@ == escape_arg(a@),
{
    let v = chars_of(a.as_str());
    let mut special = false;
    let mut i: usize = 0;
    while i < v.len()
        invariant
            i <= v.len(),
            v@ == a@,
            special == exists|j: int|
                0 <= j < i && (v@[j] == ' ' || v@[j] == ';' || v@[j] == '&' || v@[j] == '|'
                    || v@[j] == '$'),
        decreases v.len() - i,
    {
        if is_special(v[i]) {
            special = true;
        }
        i += 1;
    }
    proof {
        if needs_quoting(a@) {
            if a@.contains(' ') {
                let j = choose|j: int| 0 <= j < a@.len() && a@[j] == ' ';
                assert(v@[j] == ' ');
            } else if a@.contains(';') {
                let j = choose|j: int| 0 <= j < a@.len() && a@[j] == ';';
                assert(v@[j] == ';');
            } else if a@.contains('&') {
                let j = choose|j: int| 0 <= j < a@.len() && a@[j] == '&';
                assert(v@[j] == '&');
            } else if a@.contains('|') {
                let j = choose|j: int| 0 <= j < a@.len() && a@[j] == '|';
                assert(v@[j] == '|');
            } else {
                let j = choose|j: int| 0 <= j < a@.len() && a@[j] == '$';
                assert(v@[j] == '$');
            }
        }
        if special {
            let j = choose|j: int|
                0 <= j < v@.len() && (v@[j] == ' ' || v@[j] == ';' || v@[j] == '&' || v@[j]
                    == '|' || v@[j] == '$');
            if v@[j] == ' ' {
                assert(a@.contains(' '));
            } else if v@[j] == ';' {
                assert(a@.contains(';'));
            } else if v@[j] == '&' {
                assert(a@.contains('&'));
            } else if v@[j] == '|' {
                assert(a@.contains('|'));
            } else {
                assert(a@.contains('$'));
            }
        }
    }
    if !special {
        return a.clone();
    }
    let mut r = owned("'");
    let mut k: usize = 0;
    assert(v@.skip(0) =~= v@);
    while k < v.len()
        invariant
            k <= v.len(),
            v@ == a@,
            r@ + escape_quotes(v@.skip(k as int)) == "'"@ + escape_quotes(a@),
        decreases v.len() - k,
    {
        let ghost rest = v@.skip(k as int);
        assert(rest.drop_first() =~= v@.skip(k + 1));
        if v[k] == '\'' {
            r.append("'\\''");
        } else {
            push_char(&mut r, v[k]);
        }
        assert(r@ + escape_quotes(v@.skip(k + 1)) =~= "'"@ + escape_quotes(a@));
        k += 1;
    }
    assert(v@.skip(k as int) =~= Seq::<char>::empty());
    assert(r@ =~= "'"@ + escape_quotes(a@));
    r.append("'");
    r
}

/// The arguments as one shell command line: an argument with a space, `;`,
/// `&`, `|` or `$` in it is put in single quotes, with each `'` in it written
/// `'\''`; the arguments are separated by single spaces.
pub fn shell_escape_args(args: &Vec<String>) -> (r: String)
    ensures
        r@ == shell_escape(string_views(args@)),
{
    let mut escaped: Vec<String> = Vec::new();
    let mut i: usize = 0;
    while i < args.len()
        invariant
            i <= args.len(),
            escaped@.len() == i,
            forall|j: int| 0 <= j < i ==> #[trigger] escaped@[j]@ == escape_arg(args@[j]@),
        decreases args.len() - i,
    {
        escaped.push(escape_one(&args[i]));
        i += 1;
    }
    assert(string_views(escaped@) =~= string_views(args@).map_values(
        |a: Seq<char>| escape_arg(a),
    ));
    join_strings(&escaped, " ")
}

impl Firewall {
    /// One step of detection. `answers[i]` is whether the `i`-th probe asked
    /// for succeeded; the result is the next probe to run or the firewall found.
    pub fn detect(answers: &Vec<bool>) -> (r: Detection)
        ensures
            detection_view(r) == detect_spec(answers@),
    {
        let mut i: usize = 0;
        while i < 4
            invariant
                i <= 4,
                detect_spec(answers@) == detect_from(answers@, i as nat),
            decreases 4 - i,
        {
            if i >= answers.len() {
                return Detection::Probe(probe(i));
            }
            if answers[i] {
                return Detection::Found(candidate_at(i));
            }
            i += 1;
        }
        Detection::Found(Firewall::NotDetected)
    }

    /// The name shown to the user.
    pub fn name(&self) -> (r: &'static str)
        ensures
            r@ == name_of(*self),
    {
        match self {
            Firewall::Ufw => "UFW",
            Firewall::Firewalld => "firewalld",
            Firewall::Nftables => "nftables",
            Firewall::Iptables => "iptables",
            Firewall::NotDetected => "none detected",
        }
    }

    /// The command that allows incoming TCP connections on `port`, without
    /// privilege escalation. firewalld gets a runtime-only rule: the port is
    /// ephemeral, so the rule goes away on reboot or firewalld restart.
    pub fn allow_args(&self, port: u16) -> (r: Vec<String>)
        ensures
            string_views(r@) == allow_args_of(*self, port),
    {
        let mut r: Vec<String> = Vec::new();
        match self {
            Firewall::Ufw => {
                r.push(owned("ufw"));
                r.push(owned("allow"));
                r.push(port_tcp_string(port));
            },
            Firewall::Firewalld => {
                r.push(owned("firewall-cmd"));
                r.push(port_arg("--add-port=", port));
            },
            Firewall::Nftables => {
                r.push(owned("nft"));
                r.push(owned("add"));
                r.push(owned("rule"));
                r.push(owned("inet"));
                r.push(owned("filter"));
                r.push(owned("input"));
                r.push(owned("tcp"));
                r.push(owned("dport"));
                r.push(decimal_string(port as u64));
                r.push(owned("accept"));
            },
            Firewall::Iptables => {
                r.push(owned("iptables"));
                r.push(owned("-A"));
                r.push(owned("INPUT"));
                r.push(owned("-p"));
                r.push(owned("tcp"));
                r.push(owned("--dport"));
                r.push(decimal_string(port as u64));
                r.push(owned("-j"));
                r.push(owned("ACCEPT"));
            },
            Firewall::NotDetected => {},
        }
        assert(string_views(r@) =~= allow_args_of(*self, port));
        r
    }

    /// The command that removes the rule for `port`. nftables deletes by rule
    /// handle, so its command is a shell script that looks the handle up first.
    pub fn deny_args(&self, port: u16) -> (r: Vec<String>)
        ensures
            string_views(r@) == deny_args_of(*self, port),
    {
        let mut r: Vec<String> = Vec::new();
        match self {
            Firewall::Ufw => {
                r.push(owned("ufw"));
                r.push(owned("delete"));
                r.push(owned("allow"));
                r.push(port_tcp_string(port));
            },
            Firewall::Firewalld => {
                r.push(owned("firewall-cmd"));
                r.push(port_arg("--remove-port=", port));
            },
            Firewall::Nftables => {
                let mut script = owned(
                    "handle=$(nft -a list chain inet filter input 2>/dev/null | grep '",
                );
                script.append("tcp dport ");
                push_decimal(&mut script, port as u64);
                script.append(" accept");
                script.append(
                    "' | grep -oP 'handle \\K\\d+' | head -1); [ -n \"$handle\" ] && nft delete rule inet filter input handle $handle",
                );
                assert(script@ =~= nft_delete_script(port));
                r.push(owned("sh"));
                r.push(owned("-c"));
                r.push(script);
            },
            Firewall::Iptables => {
                r.push(owned("iptables"));
                r.push(owned("-D"));
                r.push(owned("INPUT"));
                r.push(owned("-p"));
                r.push(owned("tcp"));
                r.push(owned("--dport"));
                r.push(decimal_string(port as u64));
                r.push(owned("-j"));
                r.push(owned("ACCEPT"));
            },
            Firewall::NotDetected => {},
        }
        assert(string_views(r@) =~= deny_args_of(*self, port));
        r
    }
    /// The command that opens `port` without privilege escalation; none when
    /// no firewall was detected, in which case there is nothing to open.
    pub fn allow_port_direct_command(&self, port: u16) -> (r: Option<Vec<String>>)
        ensures
            command_view(r) == if *self == Firewall::NotDetected {
                None
            } else {
                Some(allow_args_of(*self, port))
            },
    {
        if *self == Firewall::NotDetected {
            return None;
        }
        Some(self.allow_args(port))
    }

    /// The command that closes `port` without privilege escalation; none when
    /// no firewall was detected.
    pub fn deny_port_direct_command(&self, port: u16) -> (r: Option<Vec<String>>)
        ensures
            command_view(r) == if *self == Firewall::NotDetected {
                None
            } else {
                Some(deny_args_of(*self, port))
            },
    {
        if *self == Firewall::NotDetected {
            return None;
        }
        Some(self.deny_args(port))
    }

    /// The command that opens `port` through `pkexec`; none when no firewall
    /// was detected.
    pub fn allow_port_command(&self, port: u16) -> (r: Option<Vec<String>>)
        ensures
            command_view(r) == if *self == Firewall::NotDetected {
                None
            } else {
                Some(with_pkexec(allow_args_of(*self, port)))
            },
    {
        if *self == Firewall::NotDetected {
            return None;
        }
        let mut cmd: Vec<String> = Vec::new();
        cmd.push(owned("pkexec"));
        let mut args = self.allow_args(port);
        cmd.append(&mut args);
        assert(string_views(cmd@) =~= with_pkexec(allow_args_of(*self, port)));
        Some(cmd)
    }

    /// The command that closes `port` through `pkexec`; none when no firewall
    /// was detected.
    pub fn deny_port_command(&self, port: u16) -> (r: Option<Vec<String>>)
        ensures
            command_view(r) == if *self == Firewall::NotDetected {
                None
            } else {
                Some(with_pkexec(deny_args_of(*self, port)))
            },
    {
        if *self == Firewall::NotDetected {
            return None;
        }
        let mut cmd: Vec<String> = Vec::new();
        cmd.push(owned("pkexec"));
        let mut args = self.deny_args(port);
        cmd.append(&mut args);
        assert(string_views(cmd@) =~= with_pkexec(deny_args_of(*self, port)));
        Some(cmd)
    }

    /// The single `pkexec` command that closes `old_port` (when given and
    /// different from `new_port`) and opens `new_port`; none when no firewall
    /// was detected.
    pub fn swap_port_command(&self, old_port: Option<u16>, new_port: u16) -> (r: Option<
        Vec<String>,
    >)
        ensures
            command_view(r) == if *self == Firewall::NotDetected {
                None
            } else {
                Some(seq!["pkexec"@, "sh"@, "-c"@, swap_script(*self, old_port, new_port)])
            },
    {
        if *self == Firewall::NotDetected {
            return None;
        }
        let mut script = String::new();
        if let Some(old) = old_port {
            if old != new_port {
                let deny = self.deny_args(old);
                if deny.len() > 0 {
                    let d = shell_escape_args(&deny);
                    script.append(d.as_str());
                    script.append("; ");
                }
            }
        }
        let allow = self.allow_args(new_port);
        let a = shell_escape_args(&allow);
        script.append(a.as_str());
        assert(script@ =~= swap_script(*self, old_port, new_port));
        let mut cmd: Vec<String> = Vec::new();
        cmd.push(owned("pkexec"));
        cmd.push(owned("sh"));
        cmd.push(owned("-c"));
        cmd.push(script);
        assert(string_views(cmd@) =~= seq!["pkexec"@, "sh"@, "-c"@, swap_script(*self, old_port, new_port)]);
        Some(cmd)
    }
}

} // verus!
