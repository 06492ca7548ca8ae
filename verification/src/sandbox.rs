//! The sandbox that commands run in.
//!
//! A sandboxed command may read everything and write only below the roots that
//! its slug's configuration lists. The configuration lies outside of those
//! roots, so that no command can widen its own sandbox.

use vstd::prelude::*;

use crate::location::{pane_dir, pane_of};
use crate::text::{cat3, pieces, split_lines, starts_with, strip_prefix, texts, trim, trimmed};

verus! {

/// What a slug may write to.
pub struct SandboxConfig {
    /// The roots, the slug's own directory first.
    pub writable: Vec<String>,
}

/// A text in which every `~/` is replaced.
pub open spec fn home_expanded(s: Seq<char>, home: Seq<char>) -> Seq<char>
    decreases s.len(),
{
    if s.len() == 0 {
        s
    } else if s.len() >= 2 && s[0] == '~' && s[1] == '/' {
        home + "/"@ + home_expanded(s.skip(2), home)
    } else {
        s.take(1) + home_expanded(s.skip(1), home)
    }
}

/// Replaces every `~/` of a text.
pub fn expand_home(s: &str, home: &str) -> (r: String)
    ensures
        r@ == home_expanded(s@, home@),
{
    let n: usize = s.unicode_len();
    let mut out = String::new();
    let mut i: usize = 0;
    assert(s@.skip(0) =~= s@);
    while i < n
        invariant
            n == s@.len(),
            i <= n,
            out@ + home_expanded(s@.skip(i as int), home@) == home_expanded(s@, home@),
        decreases n - i,
    {
        let ghost rest = s@.skip(i as int);
        let ghost before = out@;
        if i + 1 < n && s.get_char(i) == '~' && s.get_char(i + 1) == '/' {
            out.append(home);
            out.append("/");
            i += 2;
            assert(rest.skip(2) =~= s@.skip(i as int));
            assert(out@ + home_expanded(rest.skip(2), home@) =~= before + (home@ + "/"@
                + home_expanded(rest.skip(2), home@)));
        } else {
            let c = s.substring_char(i, i + 1);
            out.append(c);
            i += 1;
            assert(rest.skip(1) =~= s@.skip(i as int));
            assert(rest.take(1) =~= c@);
            assert(out@ + home_expanded(rest.skip(1), home@) =~= before + (rest.take(1)
                + home_expanded(rest.skip(1), home@)));
        }
    }
    assert(s@.skip(i as int) =~= Seq::empty());
    assert(out@ + Seq::<char>::empty() =~= out@);
    out
}

/// The root that a line of the configuration makes writable.
pub open spec fn line_root(line: Seq<char>, home: Seq<char>) -> Option<Seq<char>> {
    let entry = trimmed(line);
    if starts_with(entry, "writable "@) {
        Some(home_expanded(trimmed(entry.skip("writable "@.len() as int)), home))
    } else {
        None
    }
}

/// The roots that the lines of a configuration make writable.
pub open spec fn line_roots(lines: Seq<Seq<char>>, home: Seq<char>) -> Seq<Seq<char>>
    decreases lines.len(),
{
    if lines.len() == 0 {
        Seq::empty()
    } else {
        match line_root(lines.last(), home) {
            Some(root) => line_roots(lines.drop_last(), home).push(root),
            None => line_roots(lines.drop_last(), home),
        }
    }
}

/// The roots that a slug may write to, given the text of its configuration.
pub open spec fn roots(
    home: Seq<char>,
    slug: Seq<char>,
    content: Option<Seq<char>>,
) -> Seq<Seq<char>> {
    match content {
        Some(text) => seq![pane_of(home, slug)] + line_roots(pieces(text), home),
        None => seq![pane_of(home, slug)],
    }
}

/// Reads a slug's sandbox configuration. A configuration that cannot be read
/// lists nothing.
pub fn read_sandbox_config(home: &str, slug: &str, content: Option<&str>) -> (r: SandboxConfig)
    ensures
        texts(r.writable@) == roots(
            home@,
            slug@,
            match content {
                Some(text) => Some(text@),
                None => None,
            },
        ),
{
    let mut writable: Vec<String> = Vec::new();
    writable.push(pane_dir(home, slug));
    let ghost base = seq![pane_of(home@, slug@)];
    assert(texts(writable@) =~= base);
    if let Some(text) = content {
        let lines = split_lines(text);
        let ghost all = texts(lines@);
        assert(line_roots(all.take(0), home@) =~= Seq::<Seq<char>>::empty());
        let mut i: usize = 0;
        while i < lines.len()
            invariant
                i <= lines@.len(),
                all == texts(lines@),
                texts(writable@) =~= base + line_roots(all.take(i as int), home@),
            decreases lines@.len() - i,
        {
            assert(all.take(i + 1).drop_last() =~= all.take(i as int));
            assert(all.take(i + 1).last() == lines@[i as int]@);
            let ghost before = writable@;
            let entry = trim(lines[i].as_str());
            if let Some(path) = strip_prefix(entry, "writable ") {
                let root = expand_home(trim(path), home);
                writable.push(root);
                assert(texts(writable@) =~= texts(before).push(root@));
            }
            i += 1;
        }
        assert(all.take(i as int) =~= all);
    }
    SandboxConfig { writable }
}

/// A program, its arguments, and what is added to its environment.
#[derive(Debug, PartialEq, Eq)]
pub struct Invocation {
    pub program: String,
    pub arguments: Vec<String>,
    pub environment: Vec<(String, String)>,
}

/// A program, its arguments and its environment, as contracts see them.
pub struct InvocationView {
    pub program: Seq<char>,
    pub arguments: Seq<Seq<char>>,
    pub environment: Seq<(Seq<char>, Seq<char>)>,
}

/// Names with their values, as contracts see them.
pub open spec fn assigned(v: Seq<(String, String)>) -> Seq<(Seq<char>, Seq<char>)> {
    v.map_values(|p: (String, String)| (p.0@, p.1@))
}

/// What is added to the environment of every command: that it runs under this
/// executor.
pub open spec fn added_environment() -> Seq<(Seq<char>, Seq<char>)> {
    seq![("RUNNING_UNDER_WICKET"@, "1"@)]
}

/// What is added to the environment of every command.
pub fn environment() -> (r: Vec<(String, String)>)
    ensures
        assigned(r@) == added_environment(),
{
    let r: Vec<(String, String)> = vec![("RUNNING_UNDER_WICKET".to_owned(), "1".to_owned())];
    assert(assigned(r@) =~= added_environment());
    r
}

impl View for Invocation {
    type V = InvocationView;

    open spec fn view(&self) -> InvocationView {
        InvocationView {
            program: self.program@,
            arguments: texts(self.arguments@),
            environment: assigned(self.environment@),
        }
    }
}

/// A shell that runs a command without a sandbox.
pub open spec fn bare(command: Seq<char>) -> InvocationView {
    InvocationView {
        program: "zsh"@,
        arguments: seq!["-c"@, command],
        environment: added_environment(),
    }
}

/// Runs a command in a shell without a sandbox.
pub fn build_command(command: &str) -> (r: Invocation)
    ensures
        r@ == bare(command@),
{
    let arguments: Vec<String> = vec!["-c".to_owned(), command.to_owned()];
    assert(texts(arguments@) =~= seq!["-c"@, command@]);
    Invocation { program: "zsh".to_owned(), arguments, environment: environment() }
}

/// What bubblewrap is told before the writable roots: the whole file system,
/// read-only, fresh devices, processes and temporary files.
pub open spec fn bubblewrap_base() -> Seq<Seq<char>> {
    seq![
        "--new-session"@,
        "--die-with-parent"@,
        "--ro-bind"@,
        "/"@,
        "/"@,
        "--dev"@,
        "/dev"@,
        "--proc"@,
        "/proc"@,
        "--tmpfs"@,
        "/tmp"@,
        "--unshare-pid"@,
    ]
}

/// What bubblewrap is told about the writable roots.
pub open spec fn bubblewrap_binds(roots: Seq<Seq<char>>) -> Seq<Seq<char>>
    decreases roots.len(),
{
    if roots.len() == 0 {
        Seq::empty()
    } else {
        bubblewrap_binds(roots.drop_last()) + seq!["--bind"@, roots.last(), roots.last()]
    }
}

/// A shell in a bubblewrap sandbox.
pub open spec fn bubblewrap(command: Seq<char>, roots: Seq<Seq<char>>) -> InvocationView {
    InvocationView {
        program: "bwrap"@,
        arguments: bubblewrap_base() + bubblewrap_binds(roots) + seq![
            "--"@,
            "zsh"@,
            "-c"@,
            command,
        ],
        environment: added_environment(),
    }
}

fn push_all(list: &mut Vec<String>, text: &str)
    ensures
        texts(final(list)@) == texts(old(list)@).push(text@),
{
    let ghost before = list@;
    list.push(text.to_owned());
    assert(texts(list@) =~= texts(before).push(text@));
}

/// Runs a command in a shell in a bubblewrap sandbox.
pub fn build_bubblewrap_command(command: &str, config: &SandboxConfig) -> (r: Invocation)
    ensures
        r@ == bubblewrap(command@, texts(config.writable@)),
{
    let mut arguments: Vec<String> = Vec::new();
    assert(texts(arguments@) =~= Seq::empty());
    push_all(&mut arguments, "--new-session");
    push_all(&mut arguments, "--die-with-parent");
    push_all(&mut arguments, "--ro-bind");
    push_all(&mut arguments, "/");
    push_all(&mut arguments, "/");
    push_all(&mut arguments, "--dev");
    push_all(&mut arguments, "/dev");
    push_all(&mut arguments, "--proc");
    push_all(&mut arguments, "/proc");
    push_all(&mut arguments, "--tmpfs");
    push_all(&mut arguments, "/tmp");
    push_all(&mut arguments, "--unshare-pid");
    assert(texts(arguments@) =~= bubblewrap_base());
    let ghost all = texts(config.writable@);
    assert(bubblewrap_binds(all.take(0)) =~= Seq::<Seq<char>>::empty());
    let mut i: usize = 0;
    while i < config.writable.len()
        invariant
            i <= config.writable@.len(),
            all == texts(config.writable@),
            texts(arguments@) =~= bubblewrap_base() + bubblewrap_binds(all.take(i as int)),
        decreases config.writable@.len() - i,
    {
        assert(all.take(i + 1).drop_last() =~= all.take(i as int));
        assert(all.take(i + 1).last() == config.writable@[i as int]@);
        push_all(&mut arguments, "--bind");
        push_all(&mut arguments, config.writable[i].as_str());
        push_all(&mut arguments, config.writable[i].as_str());
        i += 1;
    }
    assert(all.take(i as int) =~= all);
    push_all(&mut arguments, "--");
    push_all(&mut arguments, "zsh");
    push_all(&mut arguments, "-c");
    push_all(&mut arguments, command);
    assert(texts(arguments@) =~= bubblewrap(command@, all).arguments);
    Invocation { program: "bwrap".to_owned(), arguments, environment: environment() }
}

/// The line of a seatbelt policy that makes a root writable.
pub open spec fn seatbelt_root(root: Seq<char>) -> Seq<char> {
    "(allow file-write* (subpath \""@ + root + "\"))\n"@
}

/// The lines of a seatbelt policy that make roots writable.
pub open spec fn seatbelt_roots(roots: Seq<Seq<char>>) -> Seq<char>
    decreases roots.len(),
{
    if roots.len() == 0 {
        Seq::empty()
    } else {
        seatbelt_roots(roots.drop_last()) + seatbelt_root(roots.last())
    }
}

/// The lines of a seatbelt policy before those of the writable roots.
pub open spec fn seatbelt_head() -> Seq<char> {
    "(version 1)\n(deny default)\n(allow process-exec)\n(allow process-fork)\n(allow signal (target same-sandbox))\n(allow process-info* (target same-sandbox))\n(allow file-read*)\n"@
}

/// The lines of a seatbelt policy behind those of the temporary directories.
pub open spec fn seatbelt_tail() -> Seq<char> {
    "(allow file-write-data (require-all (path \"/dev/null\") (vnode-type CHARACTER-DEVICE)))\n(allow pseudo-tty)\n(allow file-read* file-write* file-ioctl (literal \"/dev/ptmx\"))\n(allow file-read* file-write* (regex #\"^/dev/ttys[0-9]+\"))\n(allow file-ioctl (regex #\"^/dev/ttys[0-9]+\"))\n(allow sysctl-read)\n(allow mach-lookup)\n(allow network-outbound)\n(allow network-inbound)\n(allow system-socket)\n(allow ipc-posix-sem)\n(allow ipc-posix-shm-read*)\n(allow user-preference-read)\n"@
}

/// A seatbelt policy: nothing but what it lists is allowed.
pub open spec fn seatbelt_policy(roots: Seq<Seq<char>>, temporary: Seq<char>) -> Seq<char> {
    seatbelt_head() + seatbelt_roots(roots) + seatbelt_root("/tmp"@) + seatbelt_root(
        "/private/tmp"@,
    ) + seatbelt_root(temporary) + seatbelt_tail()
}

/// A shell in a seatbelt sandbox.
pub open spec fn seatbelt(
    command: Seq<char>,
    roots: Seq<Seq<char>>,
    temporary: Seq<char>,
) -> InvocationView {
    InvocationView {
        program: "/usr/bin/sandbox-exec"@,
        arguments: seq!["-p"@, seatbelt_policy(roots, temporary), "--"@, "zsh"@, "-c"@, command],
        environment: added_environment(),
    }
}

fn write_root(root: &str) -> (r: String)
    ensures
        r@ == seatbelt_root(root@),
{
    cat3("(allow file-write* (subpath \"", root, "\"))\n")
}

/// Runs a command in a shell in a seatbelt sandbox.
pub fn build_seatbelt_command(command: &str, config: &SandboxConfig, temporary: &str) -> (r:
    Invocation)
    ensures
        r@ == seatbelt(command@, texts(config.writable@), temporary@),
{
    let mut policy = "(version 1)\n(deny default)\n(allow process-exec)\n(allow process-fork)\n(allow signal (target same-sandbox))\n(allow process-info* (target same-sandbox))\n(allow file-read*)\n".to_owned();
    let ghost all = texts(config.writable@);
    assert(seatbelt_roots(all.take(0)) =~= Seq::<char>::empty());
    let mut i: usize = 0;
    while i < config.writable.len()
        invariant
            i <= config.writable@.len(),
            all == texts(config.writable@),
            policy@ =~= seatbelt_head() + seatbelt_roots(all.take(i as int)),
        decreases config.writable@.len() - i,
    {
        assert(all.take(i + 1).drop_last() =~= all.take(i as int));
        assert(all.take(i + 1).last() == config.writable@[i as int]@);
        policy.append(write_root(config.writable[i].as_str()).as_str());
        i += 1;
    }
    assert(all.take(i as int) =~= all);
    policy.append(write_root("/tmp").as_str());
    policy.append(write_root("/private/tmp").as_str());
    policy.append(write_root(temporary).as_str());
    policy.append(
        "(allow file-write-data (require-all (path \"/dev/null\") (vnode-type CHARACTER-DEVICE)))\n(allow pseudo-tty)\n(allow file-read* file-write* file-ioctl (literal \"/dev/ptmx\"))\n(allow file-read* file-write* (regex #\"^/dev/ttys[0-9]+\"))\n(allow file-ioctl (regex #\"^/dev/ttys[0-9]+\"))\n(allow sysctl-read)\n(allow mach-lookup)\n(allow network-outbound)\n(allow network-inbound)\n(allow system-socket)\n(allow ipc-posix-sem)\n(allow ipc-posix-shm-read*)\n(allow user-preference-read)\n",
    );
    let arguments: Vec<String> = vec![
        "-p".to_owned(),
        policy,
        "--".to_owned(),
        "zsh".to_owned(),
        "-c".to_owned(),
        command.to_owned(),
    ];
    assert(texts(arguments@) =~= seatbelt(command@, all, temporary@).arguments);
    Invocation {
        program: "/usr/bin/sandbox-exec".to_owned(),
        arguments,
        environment: environment(),
    }
}

/// The sandbox of a host.
#[derive(Clone, Copy, Debug, PartialEq, Eq, Structural)]
pub enum Kind {
    Bubblewrap,
    Seatbelt,
}

/// A shell in the sandbox of a host.
pub open spec fn sandboxed(
    kind: Kind,
    command: Seq<char>,
    roots: Seq<Seq<char>>,
    temporary: Seq<char>,
) -> InvocationView {
    match kind {
        Kind::Bubblewrap => bubblewrap(command, roots),
        Kind::Seatbelt => seatbelt(command, roots, temporary),
    }
}

/// Runs a command in a shell in the sandbox of a host.
pub fn build_sandbox_command(kind: Kind, command: &str, config: &SandboxConfig, temporary: &str) -> (r:
    Invocation)
    ensures
        r@ == sandboxed(kind, command@, texts(config.writable@), temporary@),
{
    match kind {
        Kind::Bubblewrap => build_bubblewrap_command(command, config),
        Kind::Seatbelt => build_seatbelt_command(command, config, temporary),
    }
}

/// A path in a bubblewrap sandbox is bound for writing only if it is one of the
/// roots.
pub proof fn only_roots_are_bound(roots: Seq<Seq<char>>, i: int)
    requires
        0 <= i < bubblewrap_binds(roots).len(),
    ensures
        bubblewrap_binds(roots).len() == 3 * roots.len(),
        i % 3 == 0 ==> bubblewrap_binds(roots)[i] == "--bind"@,
        i % 3 != 0 ==> bubblewrap_binds(roots)[i] == roots[i / 3],
    decreases roots.len(),
{
    let n = roots.len() as int;
    let earlier = bubblewrap_binds(roots.drop_last());
    if n > 1 {
        only_roots_are_bound(roots.drop_last(), 0);
        if i < earlier.len() {
            only_roots_are_bound(roots.drop_last(), i);
        }
    } else {
        assert(roots.drop_last() =~= Seq::empty());
    }
    assert(earlier.len() == 3 * (n - 1));
}

} // verus!
