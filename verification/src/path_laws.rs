//! Where paths lead to, and where things are.

use vstd::prelude::*;

use crate::location::{finished_of, jobs_of, pane_of, running_of, sandbox_file_of, state_of};
use crate::path::{
    dots_at, file_name_of, has_no_dots, is_absolute, is_file_path, is_same_path, is_within, joined,
    last_slash, leads_into, named_components, parent_of, resolved, walked,
};
use crate::text::{split, starts_with};
use crate::text_laws::{lacks, texts_are_split_where_they_meet};

verus! {

/// A name in a directory.
pub open spec fn below(directory: Seq<char>, name: Seq<char>) -> Seq<char> {
    directory.push('/') + name
}

/// Whether a text is a directory that names can be put below: it is not empty and
/// does not end with a slash.
pub open spec fn is_directory(p: Seq<char>) -> bool {
    p.len() > 0 && p.last() != '/'
}

/// Whether a path does not begin at the root.
pub open spec fn is_relative(p: Seq<char>) -> bool {
    p.len() == 0 || p[0] != '/'
}

/// A path that begins at the root stands for itself; any other one starts at the
/// directory that it is joined to.
pub proof fn paths_start_at_the_root_or_at_a_directory(base: Seq<char>, path: Seq<char>)
    ensures
        !is_relative(path) ==> joined(base, path) == path,
        is_relative(path) && is_directory(base) ==> joined(base, path) == below(base, path),
        is_relative(path) && !is_directory(base) ==> joined(base, path) == base + path,
        is_absolute(path) <==> !is_relative(path),
{
    reveal_strlit("/");
    assert(base + "/"@ + path =~= base.push('/') + path);
}

/// Everything of a slug is below the home directory: what it works in, what says
/// what it may write to, and the output of its jobs on a host, which is named by
/// the job and, once that has exited, by its exit code.
pub proof fn things_are_below_the_home_directory(
    home: Seq<char>,
    slug: Seq<char>,
    host: Seq<char>,
    job_id: Seq<char>,
    code: i32,
)
    requires
        is_directory(home),
        is_directory(slug),
        is_relative(slug),
        is_directory(host),
        is_relative(host),
        is_directory(job_id),
        is_relative(job_id),
    ensures
        ({
            let state = below(below(home, ".local/state/wicket"@), slug);
            let jobs = below(below(state, "jobs"@), host);
            &&& pane_of(home, slug) == below(below(home, "pane"@), slug)
            &&& state_of(home, slug) == state
            &&& sandbox_file_of(home, slug) == below(state, "sandbox.conf"@)
            &&& jobs_of(home, slug, host) == jobs
            &&& running_of(home, slug, host, job_id) == below(jobs, job_id + ".running.job"@)
            &&& finished_of(home, slug, host, job_id, code) == below(
                jobs,
                job_id + "."@ + crate::text::signed_decimal(code as int) + ".job"@,
            )
        }),
{
    reveal_strlit("pane");
    reveal_strlit(".local/state/wicket");
    reveal_strlit("sandbox.conf");
    reveal_strlit("jobs");
    let local = ".local/state/wicket"@;
    let state = below(below(home, local), slug);
    paths_start_at_the_root_or_at_a_directory(home, "pane"@);
    paths_start_at_the_root_or_at_a_directory(below(home, "pane"@), slug);
    assert(below(home, "pane"@).last() == "pane"@.last());
    paths_start_at_the_root_or_at_a_directory(home, local);
    assert(below(home, local).last() == local.last());
    paths_start_at_the_root_or_at_a_directory(below(home, local), slug);
    assert(state.last() == slug.last());
    paths_start_at_the_root_or_at_a_directory(state, "sandbox.conf"@);
    paths_start_at_the_root_or_at_a_directory(state, "jobs"@);
    assert(below(state, "jobs"@).last() == "jobs"@.last());
    paths_start_at_the_root_or_at_a_directory(below(state, "jobs"@), host);
    let jobs = below(below(state, "jobs"@), host);
    assert(jobs.last() == host.last());
    paths_start_at_the_root_or_at_a_directory(jobs, job_id + ".running.job"@);
    paths_start_at_the_root_or_at_a_directory(
        jobs,
        job_id + "."@ + crate::text::signed_decimal(code as int) + ".job"@,
    );
}

proof fn last_slash_of(directory: Seq<char>, name: Seq<char>)
    requires
        lacks(name, '/'),
    ensures
        last_slash(below(directory, name)) == directory.len(),
    decreases name.len(),
{
    let p = below(directory, name);
    if name.len() > 0 {
        let shorter = name.drop_last();
        assert(name[name.len() - 1] != '/');
        assert(p.drop_last() =~= below(directory, shorter));
        assert forall|i: int| 0 <= i < shorter.len() implies #[trigger] shorter[i] != '/' by {
            assert(shorter[i] == name[i]);
        }
        last_slash_of(directory, shorter);
    }
}

/// The name of a file in a directory is what stands behind the directory, and its
/// directory is what stands before the name.
pub proof fn files_are_named_in_their_directory(directory: Seq<char>, name: Seq<char>)
    requires
        lacks(name, '/'),
    ensures
        file_name_of(below(directory, name)) == name,
        is_directory(directory) ==> parent_of(below(directory, name)) == directory,
        directory.len() == 0 ==> parent_of(below(directory, name)) == "/"@,
{
    let p = below(directory, name);
    last_slash_of(directory, name);
    assert(p.skip((directory.len() + 1) as int) =~= name);
    assert(p.take(directory.len() as int) =~= directory);
}

/// Whether a component of a path is `.` or `..`.
pub open spec fn has_dots(p: Seq<char>) -> bool {
    exists|before: Seq<char>, dots: Seq<char>, behind: Seq<char>|
        {
            &&& p == #[trigger] (before.push('/') + dots + behind)
            &&& dots == seq!['.'] || dots == seq!['.', '.']
            &&& behind.len() == 0 || behind[0] == '/'
        }
}

/// A destination is any path from the root that does not end with a slash and has
/// no component `.` or `..`.
pub proof fn destinations_are_plain_paths_from_the_root(p: Seq<char>)
    ensures
        is_file_path(p) <==> p.len() > 0 && p[0] == '/' && p.last() != '/' && !has_dots(p),
{
    if is_absolute(p) && p.last() != '/' {
        if !has_no_dots(p) {
            let i = choose|i: int| 0 <= i < p.len() && #[trigger] dots_at(p, i);
            let before = p.take(i - 1);
            let n: int = if i + 1 == p.len() || p[i + 1] == '/' {
                1
            } else {
                2
            };
            let dots = p.subrange(i, i + n);
            let behind = p.skip(i + n);
            assert(p =~= before.push('/') + dots + behind);
            if n == 1 {
                assert(dots =~= seq!['.']);
            } else {
                assert(dots =~= seq!['.', '.']);
            }
            assert(has_dots(p));
        }
        if has_dots(p) {
            let (before, dots, behind) = choose|
                before: Seq<char>,
                dots: Seq<char>,
                behind: Seq<char>,
            |
                {
                    &&& p == #[trigger] (before.push('/') + dots + behind)
                    &&& dots == seq!['.'] || dots == seq!['.', '.']
                    &&& behind.len() == 0 || behind[0] == '/'
                };
            let i = before.len() + 1;
            assert(p[i as int] == dots[0]);
            assert(p[i - 1] == '/');
            if dots.len() == 2 {
                assert(p[(i + 1) as int] == dots[1]);
            }
            assert(dots_at(p, i as int));
        }
    }
}

/// The names among the pieces of a path: those that are neither empty nor `.`.
pub open spec fn names_among(pieces: Seq<Seq<char>>) -> Seq<Seq<char>>
    decreases pieces.len(),
{
    if pieces.len() == 0 {
        Seq::empty()
    } else {
        let earlier = names_among(pieces.drop_last());
        if pieces.last() == Seq::<char>::empty() || pieces.last() == seq!['.'] {
            earlier
        } else {
            earlier.push(pieces.last())
        }
    }
}

/// The names of a path, from the root on.
pub open spec fn names_of(p: Seq<char>) -> Seq<Seq<char>> {
    names_among(split(p, '/'))
}

/// Whether no component of a path is `..`.
pub open spec fn goes_down(p: Seq<char>) -> bool {
    forall|i: int| 0 <= i < split(p, '/').len() ==> #[trigger] split(p, '/')[i] != seq!['.', '.']
}

proof fn words()
    ensures
        "."@ == seq!['.'],
        ".."@ == seq!['.', '.'],
{
    reveal_strlit(".");
    reveal_strlit("..");
    assert("."@ =~= seq!['.']);
    assert(".."@ =~= seq!['.', '.']);
}

proof fn names_of_both(a: Seq<Seq<char>>, b: Seq<Seq<char>>)
    ensures
        names_among(a + b) == names_among(a) + names_among(b),
    decreases b.len(),
{
    if b.len() == 0 {
        assert(a + b =~= a);
        assert(names_among(a) + names_among(b) =~= names_among(a));
    } else {
        assert((a + b).drop_last() =~= a + b.drop_last());
        assert((a + b).last() == b.last());
        names_of_both(a, b.drop_last());
        assert(names_among(a + b) =~= names_among(a) + names_among(b));
    }
}

proof fn named_is_names(list: Seq<Seq<char>>)
    requires
        list.len() > 0,
        list[0] == Seq::<char>::empty(),
    ensures
        named_components(list) == names_among(list),
    decreases list.len(),
{
    words();
    let earlier = list.drop_last();
    if list.len() > 1 {
        assert(earlier[0] == list[0]);
        named_is_names(earlier);
    } else {
        assert(list.last() == list[0]);
        assert(earlier =~= Seq::empty());
        assert(named_components(earlier) =~= names_among(earlier));
    }
    assert(list.last().len() == 0 <==> list.last() =~= Seq::<char>::empty());
    assert(named_components(list) =~= names_among(list));
}

proof fn first_piece(p: Seq<char>)
    requires
        !is_relative(p),
    ensures
        split(p, '/').len() > 0,
        split(p, '/')[0] == Seq::<char>::empty(),
        split(p, '/') == seq![Seq::<char>::empty()] + split(p.skip(1), '/'),
{
    let none = Seq::<char>::empty();
    texts_are_split_where_they_meet(none, p.skip(1), '/');
    assert(none.push('/') + p.skip(1) =~= p);
}

/// Two paths from the root are the same exactly if they have the same names:
/// how often a slash is repeated does not matter, nor does a `.`.
pub proof fn paths_are_the_same_by_their_names(a: Seq<char>, b: Seq<char>)
    requires
        !is_relative(a),
        !is_relative(b),
    ensures
        is_same_path(a, b) <==> names_of(a) == names_of(b),
{
    first_piece(a);
    first_piece(b);
    named_is_names(split(a, '/'));
    named_is_names(split(b, '/'));
}

/// A repeated slash changes no path.
pub proof fn repeated_slashes_do_not_matter(a: Seq<char>, b: Seq<char>)
    requires
        !is_relative(below(a, b)),
    ensures
        is_same_path(below(a, b), below(a.push('/'), b)),
        names_of(below(a, b)) == names_of(a) + names_of(b),
{
    let none = Seq::<char>::empty();
    texts_are_split_where_they_meet(a, b, '/');
    texts_are_split_where_they_meet(a, none, '/');
    assert(a.push('/') + none =~= a.push('/'));
    texts_are_split_where_they_meet(none, b, '/');
    texts_are_split_where_they_meet(a.push('/'), b, '/');
    assert(split(none, '/') =~= seq![none]);
    names_of_both(split(a, '/'), split(b, '/'));
    names_of_both(split(a, '/'), seq![none]);
    names_of_both(split(a, '/') + seq![none], split(b, '/'));
    assert(seq![none].drop_last() =~= Seq::<Seq<char>>::empty());
    assert(names_among(seq![none].drop_last()) =~= Seq::empty());
    assert(seq![none].last() == none);
    assert(names_among(seq![none]) =~= Seq::empty());
    assert(names_of(below(a.push('/'), b)) =~= names_of(below(a, b)));
    paths_are_the_same_by_their_names(below(a, b), below(a.push('/'), b));
}

proof fn walking_down(a: Seq<Seq<char>>, b: Seq<Seq<char>>)
    requires
        forall|i: int| 0 <= i < b.len() ==> #[trigger] b[i] != seq!['.', '.'],
    ensures
        walked(a + b) == walked(a) + names_among(b),
    decreases b.len(),
{
    words();
    if b.len() == 0 {
        assert(a + b =~= a);
        assert(walked(a) + names_among(b) =~= walked(a));
    } else {
        let c = b.drop_last();
        assert((a + b).drop_last() =~= a + c);
        assert((a + b).last() == b.last());
        assert(b[b.len() - 1] != seq!['.', '.']);
        assert forall|i: int| 0 <= i < c.len() implies #[trigger] c[i] != seq!['.', '.'] by {
            assert(c[i] == b[i]);
        }
        walking_down(a, c);
        assert(b.last().len() == 0 <==> b.last() =~= Seq::<char>::empty());
        assert(walked(a + b) =~= walked(a) + names_among(b));
    }
}

/// Whatever is below a directory leads into it, as long as it does not go back
/// up.
pub proof fn what_is_below_a_directory_leads_into_it(root: Seq<char>, rest: Seq<char>)
    requires
        !is_relative(root),
        goes_down(rest),
    ensures
        leads_into(root, below(root, rest)),
        leads_into(root, root),
{
    texts_are_split_where_they_meet(root, rest, '/');
    walking_down(split(root, '/'), split(rest, '/'));
    assert(resolved(below(root, rest)).take(resolved(root).len() as int) =~= resolved(root));
    assert(resolved(root).take(resolved(root).len() as int) =~= resolved(root));
}

/// Where no path goes back up, one leads into another exactly if its names begin
/// with the names of the other: a name counts as a whole.
pub proof fn paths_lead_into_a_directory_by_their_names(root: Seq<char>, path: Seq<char>)
    requires
        !is_relative(root),
        !is_relative(path),
        goes_down(root),
        goes_down(path),
    ensures
        leads_into(root, path) <==> names_of(root).len() <= names_of(path).len() && names_of(
            path,
        ).take(names_of(root).len() as int) == names_of(root),
{
    let none = Seq::<Seq<char>>::empty();
    walking_down(none, split(root, '/'));
    walking_down(none, split(path, '/'));
    assert(none + split(root, '/') =~= split(root, '/'));
    assert(none + split(path, '/') =~= split(path, '/'));
    assert(walked(none) + names_of(root) =~= names_of(root));
    assert(walked(none) + names_of(path) =~= names_of(path));
}

/// A `..` takes back the name before it: what follows counts from there.
pub proof fn going_back_up_counts(
    root: Seq<char>,
    path: Seq<char>,
    name: Seq<char>,
    rest: Seq<char>,
)
    requires
        !is_relative(path),
        lacks(name, '/'),
        name.len() > 0,
        name != seq!['.'],
        name != seq!['.', '.'],
        goes_down(rest),
    ensures
        leads_into(root, below(below(below(path, name), seq!['.', '.']), rest)) <==> leads_into(
            root,
            below(path, rest),
        ),
{
    words();
    let up = seq!['.', '.'];
    assert(lacks(up, '/'));
    texts_are_split_where_they_meet(path, name, '/');
    texts_are_split_where_they_meet(name, name, '/');
    texts_are_split_where_they_meet(up, up, '/');
    texts_are_split_where_they_meet(below(path, name), up, '/');
    texts_are_split_where_they_meet(below(below(path, name), up), rest, '/');
    texts_are_split_where_they_meet(path, rest, '/');
    let a = split(path, '/');
    let there = a + seq![name];
    let back = there + seq![up];
    assert(there.drop_last() =~= a && there.last() == name);
    assert(back.drop_last() =~= there && back.last() == up);
    assert(walked(there) == walked(a).push(name));
    assert(walked(back) =~= walked(a));
    walking_down(back, split(rest, '/'));
    walking_down(a, split(rest, '/'));
}

/// A canonical path lies within a canonical directory exactly if it is that
/// directory or stands below it.
pub proof fn canonical_paths_lie_below_their_directory(root: Seq<char>, path: Seq<char>)
    requires
        is_directory(root),
    ensures
        is_within(root, path) <==> path == root || exists|rest: Seq<char>|
            path == #[trigger] below(root, rest),
        is_within("/"@, path) <==> path.len() > 0 && path[0] == '/',
{
    reveal_strlit("/");
    assert(root + "/"@ =~= root.push('/'));
    assert(root != "/"@) by {
        assert("/"@.last() == '/');
    }
    if starts_with(path, root.push('/')) {
        assert(path =~= below(root, path.skip((root.len() + 1) as int)));
    }
    assert forall|rest: Seq<char>| path == #[trigger] below(root, rest) implies starts_with(
        path,
        root.push('/'),
    ) by {
        assert(path.take((root.len() + 1) as int) =~= root.push('/'));
    }
    if starts_with(path, "/"@ + "/"@) {
        assert(path.take(2)[0] == path[0]);
        assert(("/"@ + "/"@)[0] == '/');
    }
    if path == "/"@ {
        assert(path[0] == '/');
    }
}

} // verus!
