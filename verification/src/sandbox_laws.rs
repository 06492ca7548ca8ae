//! What a slug may write to, and how its commands are kept to that.

use vstd::prelude::*;

use crate::location::pane_of;
use crate::path::joined;
use crate::policy;
use crate::sandbox::{
    bare, bubblewrap_base, bubblewrap_binds, home_expanded, line_root, line_roots,
    only_roots_are_bound, roots, sandboxed, seatbelt_policy, seatbelt_root, seatbelt_roots,
    InvocationView, Kind,
};
use crate::text::{is_space, pieces, starts_with, trimmed};
use crate::text_laws::{is_blank, lacks, lines_are_pieces, trimming_keeps_the_text};

verus! {

/// Whether a text nowhere has a tilde before a slash.
pub open spec fn names_no_home(s: Seq<char>) -> bool {
    forall|i: int| 0 <= i < s.len() - 1 ==> !(#[trigger] s[i] == '~' && s[i + 1] == '/')
}

/// Every tilde before a slash stands for the home directory, and nothing else is
/// changed.
pub proof fn tildes_stand_for_the_home_directory(a: Seq<char>, b: Seq<char>, home: Seq<char>)
    requires
        names_no_home(a),
    ensures
        home_expanded(a, home) == a,
        home_expanded(a + seq!['~', '/'] + b, home) == a + home + seq!['/'] + home_expanded(b, home),
    decreases a.len(),
{
    reveal_strlit("/");
    let s = a + seq!['~', '/'] + b;
    if a.len() == 0 {
        assert(s.skip(2) =~= b);
        assert(s[0] == '~' && s[1] == '/');
        assert(home + "/"@ + home_expanded(b, home) =~= a + home + seq!['/'] + home_expanded(
            b,
            home,
        ));
    } else {
        let rest = a.skip(1);
        assert forall|i: int| 0 <= i < rest.len() - 1 implies !(#[trigger] rest[i] == '~' && rest[i
            + 1] == '/') by {
            assert(rest[i] == a[i + 1] && rest[i + 1] == a[i + 2]);
        }
        tildes_stand_for_the_home_directory(rest, b, home);
        assert(a.take(1) + rest =~= a);
        assert(s.skip(1) =~= rest + seq!['~', '/'] + b);
        assert(s.take(1) =~= a.take(1));
        assert(s[0] == a[0]);
        if a.len() >= 2 {
            assert(s[1] == a[1]);
            assert(!(a[0] == '~' && a[1] == '/'));
        } else {
            assert(s[1] == '~');
        }
        assert(s.take(1) + (rest + home + seq!['/'] + home_expanded(b, home)) =~= a + home
            + seq!['/'] + home_expanded(b, home));
    }
}

/// Whether a line lists a root: the word `writable`, a space, and the root, with
/// white space around.
pub open spec fn lists(line: Seq<char>, root: Seq<char>) -> bool {
    exists|before: Seq<char>, between: Seq<char>, behind: Seq<char>|
        {
            &&& line == #[trigger] (before + "writable "@ + between + root + behind)
            &&& is_blank(before)
            &&& is_blank(between)
            &&& is_blank(behind)
        }
}

proof fn listed_roots_are_read(line: Seq<char>, root: Seq<char>, home: Seq<char>)
    requires
        lists(line, root),
        root.len() > 0,
        !is_space(root.first()),
        !is_space(root.last()),
    ensures
        line_root(line, home) == Some(home_expanded(root, home)),
        starts_with(trimmed(line), "writable "@),
        trimmed(trimmed(line).skip("writable "@.len() as int)) == root,
{
    reveal_strlit("writable ");
    let word = "writable "@;
    let (before, between, behind) = choose|
        before: Seq<char>,
        between: Seq<char>,
        behind: Seq<char>,
    |
        {
            &&& line == #[trigger] (before + word + between + root + behind)
            &&& is_blank(before)
            &&& is_blank(between)
            &&& is_blank(behind)
        };
    let entry = word + between + root;
    assert(before + entry + behind =~= line);
    assert(entry.first() == 'w');
    assert(entry.last() == root.last());
    trimming_keeps_the_text(before, entry, behind);
    assert(entry.take(word.len() as int) =~= word);
    assert(entry.skip(word.len() as int) =~= between + root);
    assert(between + root + Seq::empty() =~= between + root);
    trimming_keeps_the_text(between, root, Seq::empty());
}

proof fn roots_of_both(a: Seq<Seq<char>>, b: Seq<Seq<char>>, home: Seq<char>)
    ensures
        line_roots(a + b, home) == line_roots(a, home) + line_roots(b, home),
        policy::line_roots(home, a + b) == policy::line_roots(home, a) + policy::line_roots(
            home,
            b,
        ),
    decreases b.len(),
{
    if b.len() == 0 {
        assert(a + b =~= a);
        assert(line_roots(a, home) + line_roots(b, home) =~= line_roots(a, home));
        assert(policy::line_roots(home, a) + policy::line_roots(home, b) =~= policy::line_roots(
            home,
            a,
        ));
    } else {
        assert((a + b).drop_last() =~= a + b.drop_last());
        assert((a + b).last() == b.last());
        roots_of_both(a, b.drop_last(), home);
        assert(line_roots(a + b, home) =~= line_roots(a, home) + line_roots(b, home));
        assert(policy::line_roots(home, a + b) =~= policy::line_roots(home, a)
            + policy::line_roots(home, b));
    }
}

proof fn roots_of_one(line: Seq<char>, home: Seq<char>)
    ensures
        line_roots(seq![line], home) == (match line_root(line, home) {
            Some(root) => seq![root],
            None => Seq::empty(),
        }),
        policy::line_roots(home, seq![line]) == (match policy::line_root(home, line) {
            Some(root) => seq![root],
            None => Seq::empty(),
        }),
{
    assert(seq![line].drop_last() =~= Seq::<Seq<char>>::empty());
    assert(line_roots(Seq::empty(), home) =~= Seq::empty());
    assert(policy::line_roots(home, Seq::empty()) =~= Seq::empty());
    assert(seq![line].last() == line);
    assert(line_roots(seq![line], home) =~= (match line_root(line, home) {
        Some(root) => seq![root],
        None => Seq::empty(),
    }));
    assert(policy::line_roots(home, seq![line]) =~= (match policy::line_root(home, line) {
        Some(root) => seq![root],
        None => Seq::empty(),
    }));
}

/// A slug may always write to its own directory, whether it has a configuration
/// or not; and without one it may write to nothing else.
pub proof fn a_slug_may_write_to_its_own_directory(
    home: Seq<char>,
    slug: Seq<char>,
    config: Option<Seq<char>>,
)
    ensures
        roots(home, slug, config).len() >= 1,
        roots(home, slug, config)[0] == pane_of(home, slug),
        roots(home, slug, None) == seq![pane_of(home, slug)],
        policy::roots_of(home, slug, config).len() >= 1,
        policy::roots_of(home, slug, config)[0] == pane_of(home, slug),
        policy::roots_of(home, slug, None) == seq![pane_of(home, slug)],
{
}

/// A root that a line of the configuration lists is one that the slug may write
/// to, wherever the line stands; the lines before it and behind it go on listing
/// theirs, in order.
pub proof fn listed_roots_are_writable(
    home: Seq<char>,
    slug: Seq<char>,
    before: Seq<char>,
    line: Seq<char>,
    behind: Seq<char>,
    root: Seq<char>,
)
    requires
        lacks(line, '\n'),
        lists(line, root),
        root.len() > 0,
        !is_space(root.first()),
        !is_space(root.last()),
    ensures
        ({
            let all = before.push('\n') + line.push('\n') + behind;
            let pane = seq![pane_of(home, slug)];
            let found = home_expanded(root, home);
            &&& pane + roots(home, slug, Some(all)).skip(1) == roots(home, slug, Some(before))
                + seq![found] + roots(home, slug, Some(behind)).skip(1)
            &&& roots(home, slug, Some(line)) == pane + seq![found]
            &&& roots(home, slug, Some(line.push('\n') + behind)) == pane + seq![found] + roots(
                home,
                slug,
                Some(behind),
            ).skip(1)
            &&& roots(home, slug, Some(before.push('\n') + line)) == roots(
                home,
                slug,
                Some(before),
            ) + seq![found]
        }),
{
    let all = before.push('\n') + line.push('\n') + behind;
    let pane = seq![pane_of(home, slug)];
    let found = home_expanded(root, home);
    listed_roots_are_read(line, root, home);
    lines_are_pieces(before, line, behind);
    roots_of_one(line, home);
    roots_of_both(pieces(before) + seq![line], pieces(behind), home);
    roots_of_both(pieces(before), seq![line], home);
    roots_of_both(seq![line], pieces(behind), home);
    assert(roots(home, slug, Some(behind)).skip(1) =~= line_roots(pieces(behind), home));
    assert(roots(home, slug, Some(all)).skip(1) =~= line_roots(pieces(all), home));
    assert(pane + roots(home, slug, Some(all)).skip(1) =~= roots(home, slug, Some(before))
        + seq![found] + roots(home, slug, Some(behind)).skip(1));
    assert(roots(home, slug, Some(line)) =~= pane + seq![found]);
    assert(roots(home, slug, Some(line.push('\n') + behind)) =~= pane + seq![found] + roots(
        home,
        slug,
        Some(behind),
    ).skip(1));
    assert(roots(home, slug, Some(before.push('\n') + line)) =~= roots(home, slug, Some(before))
        + seq![found]);
}

/// The same for the roots that screenshots may be published below, where only a
/// tilde at the start of a root stands for the home directory.
pub proof fn listed_roots_may_be_published_below(
    home: Seq<char>,
    slug: Seq<char>,
    before: Seq<char>,
    line: Seq<char>,
    behind: Seq<char>,
    root: Seq<char>,
)
    requires
        lacks(line, '\n'),
        lists(line, root),
        root.len() > 0,
        !is_space(root.first()),
        !is_space(root.last()),
    ensures
        ({
            let all = before.push('\n') + line.push('\n') + behind;
            let found = if root.len() >= 2 && root[0] == '~' && root[1] == '/' {
                joined(home, root.skip(2))
            } else {
                root
            };
            &&& policy::roots_of(home, slug, Some(all)) == policy::roots_of(
                home,
                slug,
                Some(before),
            ) + seq![found] + policy::roots_of(home, slug, Some(behind)).skip(1)
            &&& policy::roots_of(home, slug, Some(line)) == seq![pane_of(home, slug), found]
        }),
{
    reveal_strlit("~/");
    assert("~/"@ =~= seq!['~', '/']);
    assert(starts_with(root, "~/"@) <==> root.len() >= 2 && root[0] == '~' && root[1] == '/') by {
        if root.len() >= 2 {
            assert(root.take(2)[0] == root[0] && root.take(2)[1] == root[1]);
            if root[0] == '~' && root[1] == '/' {
                assert(root.take(2) =~= seq!['~', '/']);
            }
        }
    }
    let all = before.push('\n') + line.push('\n') + behind;
    let found = if root.len() >= 2 && root[0] == '~' && root[1] == '/' {
        joined(home, root.skip(2))
    } else {
        root
    };
    listed_roots_are_read(line, root, home);
    lines_are_pieces(before, line, behind);
    roots_of_one(line, home);
    roots_of_both(pieces(before) + seq![line], pieces(behind), home);
    roots_of_both(pieces(before), seq![line], home);
    assert(policy::roots_of(home, slug, Some(behind)).skip(1) =~= policy::line_roots(
        home,
        pieces(behind),
    ));
    assert(policy::roots_of(home, slug, Some(all)) =~= policy::roots_of(home, slug, Some(before))
        + seq![found] + policy::roots_of(home, slug, Some(behind)).skip(1));
    assert(policy::roots_of(home, slug, Some(line)) =~= seq![pane_of(home, slug), found]);
}

/// A line that does not begin with the word `writable` and a space lists nothing.
pub proof fn other_lines_list_nothing(home: Seq<char>, line: Seq<char>)
    requires
        !starts_with(trimmed(line), "writable "@),
    ensures
        line_root(line, home) is None,
        policy::line_root(home, line) is None,
        lacks(line, '\n') ==> roots(home, Seq::empty(), Some(line)) == seq![
            pane_of(home, Seq::empty()),
        ],
{
    if lacks(line, '\n') {
        lines_are_pieces(Seq::empty(), line, Seq::empty());
        roots_of_one(line, home);
        assert(roots(home, Seq::empty(), Some(line)) =~= seq![pane_of(home, Seq::empty())]);
    }
}

/// A command is run by the shell, as it is, and is told that it runs under this
/// executor.
pub proof fn commands_are_run_by_the_shell(command: Seq<char>)
    ensures
        bare(command) == (InvocationView {
            program: "zsh"@,
            arguments: seq!["-c"@, command],
            environment: seq![("RUNNING_UNDER_WICKET"@, "1"@)],
        }),
{
}

/// Whether the arguments behind the first twelve, three for each, bind a directory
/// at a place to itself.
pub open spec fn is_bound(arguments: Seq<Seq<char>>, k: int, directory: Seq<char>) -> bool {
    &&& arguments[12 + 3 * k] == "--bind"@
    &&& arguments[12 + 3 * k + 1] == directory
    &&& arguments[12 + 3 * k + 2] == directory
}

/// In a bubblewrap sandbox the whole file system is there and cannot be written
/// to, but for the roots, each at its own place; devices, processes and temporary
/// files are the command's own; and the command is run by the shell, as it is.
pub proof fn bubblewrap_binds_the_roots(
    command: Seq<char>,
    roots: Seq<Seq<char>>,
    temporary: Seq<char>,
)
    ensures
        ({
            let i = sandboxed(Kind::Bubblewrap, command, roots, temporary);
            let n = roots.len() as int;
            &&& i.program == "bwrap"@
            &&& i.environment == seq![("RUNNING_UNDER_WICKET"@, "1"@)]
            &&& i.arguments.len() == 16 + 3 * n
            &&& i.arguments.take(12) == seq![
                "--new-session"@,
                "--die-with-parent"@,
                "--ro-bind"@,
                "/"@,
                "/"@,
                "--dev"@,
                "/dev"@,
                "--proc"@,
                "/proc"@,
                "--tmpfs"@,
                "/tmp"@,
                "--unshare-pid"@,
            ]
            &&& forall|k: int| 0 <= k < n ==> #[trigger] is_bound(i.arguments, k, roots[k])
            &&& i.arguments.skip(12 + 3 * n) == seq!["--"@, "zsh"@, "-c"@, command]
        }),
{
    let i = sandboxed(Kind::Bubblewrap, command, roots, temporary);
    let n = roots.len() as int;
    let binds = bubblewrap_binds(roots);
    if n > 0 {
        assert(binds.len() > 0);
        only_roots_are_bound(roots, 0);
    }
    assert(bubblewrap_base().len() == 12);
    assert(binds.len() == 3 * n);
    assert(i.arguments.len() == 16 + 3 * n);
    assert(i.arguments.take(12) =~= bubblewrap_base());
    assert(i.arguments.skip(12 + 3 * n) =~= seq!["--"@, "zsh"@, "-c"@, command]);
    assert forall|k: int| 0 <= k < n implies #[trigger] is_bound(i.arguments, k, roots[k]) by {
        only_roots_are_bound(roots, 3 * k);
        only_roots_are_bound(roots, 3 * k + 1);
        only_roots_are_bound(roots, 3 * k + 2);
        assert(i.arguments[12 + 3 * k] == binds[3 * k]);
        assert(i.arguments[12 + 3 * k + 1] == binds[3 * k + 1]);
        assert(i.arguments[12 + 3 * k + 2] == binds[3 * k + 2]);
    }
}

/// The lines that allow writing below directories, one for each.
pub open spec fn writing_lines(directories: Seq<Seq<char>>) -> Seq<char>
    decreases directories.len(),
{
    if directories.len() == 0 {
        Seq::empty()
    } else {
        writing_lines(directories.drop_last()) + "(allow file-write* (subpath \""@
            + directories.last() + "\"))\n"@
    }
}

proof fn lines_of_roots(roots: Seq<Seq<char>>)
    ensures
        seatbelt_roots(roots) == writing_lines(roots),
    decreases roots.len(),
{
    if roots.len() > 0 {
        lines_of_roots(roots.drop_last());
        assert(seatbelt_roots(roots) =~= writing_lines(roots));
    }
}

/// In a seatbelt sandbox nothing is allowed but what the policy lists: reading, a
/// command's own processes, and writing below the roots and the temporary
/// directories; then terminals, the network and what a shell needs besides. The
/// command is run by the shell, as it is.
pub proof fn seatbelt_allows_the_roots(
    command: Seq<char>,
    roots: Seq<Seq<char>>,
    temporary: Seq<char>,
)
    ensures
        ({
            let i = sandboxed(Kind::Seatbelt, command, roots, temporary);
            let writable = roots.push("/tmp"@).push("/private/tmp"@).push(temporary);
            &&& i.program == "/usr/bin/sandbox-exec"@
            &&& i.environment == seq![("RUNNING_UNDER_WICKET"@, "1"@)]
            &&& i.arguments == seq![
                "-p"@,
                "(version 1)\n(deny default)\n(allow process-exec)\n(allow process-fork)\n(allow signal (target same-sandbox))\n(allow process-info* (target same-sandbox))\n(allow file-read*)\n"@
                    + writing_lines(writable)
                    + "(allow file-write-data (require-all (path \"/dev/null\") (vnode-type CHARACTER-DEVICE)))\n(allow pseudo-tty)\n(allow file-read* file-write* file-ioctl (literal \"/dev/ptmx\"))\n(allow file-read* file-write* (regex #\"^/dev/ttys[0-9]+\"))\n(allow file-ioctl (regex #\"^/dev/ttys[0-9]+\"))\n(allow sysctl-read)\n(allow mach-lookup)\n(allow network-outbound)\n(allow network-inbound)\n(allow system-socket)\n(allow ipc-posix-sem)\n(allow ipc-posix-shm-read*)\n(allow user-preference-read)\n"@,
                "--"@,
                "zsh"@,
                "-c"@,
                command,
            ]
        }),
{
    let i = sandboxed(Kind::Seatbelt, command, roots, temporary);
    let one = roots.push("/tmp"@);
    let two = one.push("/private/tmp"@);
    let three = two.push(temporary);
    lines_of_roots(roots);
    assert(one.drop_last() =~= roots);
    assert(two.drop_last() =~= one);
    assert(three.drop_last() =~= two);
    assert(writing_lines(one) =~= writing_lines(roots) + seatbelt_root("/tmp"@));
    assert(writing_lines(two) =~= writing_lines(one) + seatbelt_root("/private/tmp"@));
    assert(writing_lines(three) =~= writing_lines(two) + seatbelt_root(temporary));
    assert(writing_lines(three) =~= seatbelt_roots(roots) + seatbelt_root("/tmp"@) + seatbelt_root(
        "/private/tmp"@,
    ) + seatbelt_root(temporary));
    assert(seatbelt_policy(roots, temporary) =~= crate::sandbox::seatbelt_head() + writing_lines(
        three,
    ) + crate::sandbox::seatbelt_tail());
}

} // verus!
