//! What the tools are for: what a call asks for, step by step, and what it is
//! answered.

use vstd::prelude::*;

use crate::encoding::base64_encoded;
use crate::json::json_quoted;
use crate::location::{jobs_of, pane_of, running_of, sandbox_file_of};
use crate::message::{Outbound, Task, ToolOutbound};
use crate::patch::{denied_path, is_writable, Patched};
use crate::path::{joined, leads_into};
use crate::path_laws::{
    below, goes_down, is_directory, is_relative, paths_start_at_the_root_or_at_a_directory,
    things_are_below_the_home_directory, what_is_below_a_directory_leads_into_it,
};
use crate::picture::{image_shrunk, image_size, media_type_of};
use crate::process::{lossy_text, Finished};
use crate::sandbox::{bare, roots, sandboxed};
use crate::sandbox_laws::a_slug_may_write_to_its_own_directory;
use crate::text::{decimal, texts, trimmed_end};
use crate::tool::{advanced, begun, maybe, output_name, EffectView, Host, Report, StepView};

verus! {

/// What a step comes to when it is told what came of its effect.
pub open spec fn told(step: StepView, report: Report) -> StepView {
    match step {
        StepView::Do(host, running, _) => advanced(host, running, report),
        end => end,
    }
}

/// What a step asks for.
pub open spec fn asked(step: StepView) -> Option<EffectView> {
    match step {
        StepView::Do(_, _, effect) => Some(effect),
        _ => None,
    }
}

/// The answer to a call of a tool.
pub open spec fn answer(call_id: Seq<char>, output: Seq<char>, exit_code: i32) -> StepView {
    StepView::Say(Outbound::Tool(ToolOutbound::Response { call_id, output, exit_code }))
}

/// Whether a text is what a run wrote to its output, with what it wrote to its
/// complaints behind it.
pub open spec fn is_all_of(output: Seq<char>, f: Finished) -> bool {
    let out = lossy_text(f.stdout@);
    let err = lossy_text(f.stderr@);
    &&& output.len() == out.len() + err.len()
    &&& output.take(out.len() as int) == out
    &&& output.skip(out.len() as int) == err
}

/// The exit code that is answered: the run's own, or -1 where a signal ended it.
pub open spec fn is_code_of(code: i32, f: Finished) -> bool {
    match f.code {
        Some(own) => code == own,
        None => code == -1,
    }
}

/// A foreground command runs in its slug's directory, which is made first:
/// sandboxed with the roots of its slug's configuration, or as it is if it may
/// leave the sandbox. Whatever its exit status, it is answered with all that it
/// wrote, its output first and its complaints behind, and with its exit code.
pub proof fn commands_are_answered_with_all_that_they_wrote(
    host: Host<Seq<char>>,
    slug: Seq<char>,
    transcript: Seq<char>,
    call_id: Seq<char>,
    command: Seq<char>,
    in_sandbox: bool,
    config: Option<String>,
    f: Finished,
)
    ensures
        ({
            let task = Task::Zsh {
                slug,
                transcript,
                call_id,
                command,
                sandboxed: in_sandbox,
                background: false,
            };
            let pane = pane_of(host.home, slug);
            let first = begun(host, task);
            let second = told(first, Report::Done(Ok(())));
            let third = if in_sandbox {
                told(second, Report::Config(config))
            } else {
                second
            };
            let last = told(third, Report::Ran(Ok(f)));
            &&& asked(first) == Some(EffectView::MakeDirectory { path: pane })
            &&& in_sandbox ==> asked(second) == Some(
                EffectView::ReadConfig { path: sandbox_file_of(host.home, slug) },
            )
            &&& asked(third) == Some(
                EffectView::Run {
                    invocation: if in_sandbox {
                        sandboxed(
                            host.sandbox,
                            command,
                            roots(host.home, slug, maybe(config)),
                            host.temporary,
                        )
                    } else {
                        bare(command)
                    },
                    directory: pane,
                },
            )
            &&& last matches StepView::Say(
                Outbound::Tool(ToolOutbound::Response { call_id: c, output, exit_code }),
            )
            &&& c == call_id
            &&& is_all_of(output, f)
            &&& is_code_of(exit_code, f)
        }),
{
    let out = lossy_text(f.stdout@);
    let err = lossy_text(f.stderr@);
    assert((out + err).take(out.len() as int) =~= out);
    assert((out + err).skip(out.len() as int) =~= err);
}

/// A command whose directory cannot be made, or that cannot be run, is answered
/// with why, and fails.
pub proof fn commands_that_cannot_run_are_answered_with_why(
    host: Host<Seq<char>>,
    slug: Seq<char>,
    transcript: Seq<char>,
    call_id: Seq<char>,
    command: Seq<char>,
    in_sandbox: bool,
    background: bool,
    config: Option<String>,
    e: String,
)
    ensures
        ({
            let task = Task::Zsh {
                slug,
                transcript,
                call_id,
                command,
                sandboxed: in_sandbox,
                background,
            };
            let first = begun(host, task);
            let made = told(first, Report::Done(Ok(())));
            let ready = if background {
                told(made, Report::Done(Ok(())))
            } else {
                made
            };
            let launched = if in_sandbox {
                told(ready, Report::Config(config))
            } else {
                ready
            };
            &&& told(first, Report::Done(Err(e))) == answer(
                call_id,
                "failed to create pane directory: "@ + e@,
                1,
            )
            &&& background ==> told(made, Report::Done(Err(e))) == answer(
                call_id,
                "failed to create output file: "@ + e@,
                1,
            )
            &&& background ==> told(launched, Report::Done(Err(e))) == answer(
                call_id,
                "failed to spawn background task: "@ + e@,
                1,
            )
            &&& !background ==> told(launched, Report::Ran(Err(e))) == answer(
                call_id,
                "failed to execute: "@ + e@,
                1,
            )
        }),
{
}

/// A background command gets a file for its output, then is started in its slug's
/// directory as a foreground command would be run. It is a job from then on, known
/// by its call, and the answer names the job and its output.
pub proof fn background_commands_become_jobs(
    host: Host<Seq<char>>,
    slug: Seq<char>,
    transcript: Seq<char>,
    call_id: Seq<char>,
    command: Seq<char>,
    in_sandbox: bool,
    config: Option<String>,
)
    ensures
        ({
            let task = Task::Zsh {
                slug,
                transcript,
                call_id,
                command,
                sandboxed: in_sandbox,
                background: true,
            };
            let pane = pane_of(host.home, slug);
            let output = running_of(host.home, slug, host.identity, call_id);
            let first = begun(host, task);
            let second = told(first, Report::Done(Ok(())));
            let third = told(second, Report::Done(Ok(())));
            let fourth = if in_sandbox {
                told(third, Report::Config(config))
            } else {
                third
            };
            let last = told(fourth, Report::Done(Ok(())));
            &&& asked(first) == Some(EffectView::MakeDirectory { path: pane })
            &&& asked(second) == Some(
                EffectView::CreateOutput {
                    directory: jobs_of(host.home, slug, host.identity),
                    path: output,
                },
            )
            &&& in_sandbox ==> asked(third) == Some(
                EffectView::ReadConfig { path: sandbox_file_of(host.home, slug) },
            )
            &&& asked(fourth) == Some(
                EffectView::Spawn {
                    invocation: if in_sandbox {
                        sandboxed(
                            host.sandbox,
                            command,
                            roots(host.home, slug, maybe(config)),
                            host.temporary,
                        )
                    } else {
                        bare(command)
                    },
                    directory: pane,
                },
            )
            &&& last matches StepView::Start(started)
            &&& started.slug == slug
            &&& started.transcript == transcript
            &&& started.job_id == call_id
            &&& started.command == command
            &&& started.output_path == output
            &&& StepView::Say(started.message) == answer(
                call_id,
                "Background job "@ + call_id + " started. Output: "@ + output,
                0,
            )
        }),
{
}

/// An operator's command runs in its slug's directory, without a sandbox, and is
/// answered like a foreground command, to the operator.
pub proof fn operators_commands_are_answered_with_all_that_they_wrote(
    host: Host<Seq<char>>,
    slug: Seq<char>,
    transcript: Seq<char>,
    id: Seq<char>,
    command: Seq<char>,
    f: Finished,
    e: String,
)
    ensures
        ({
            let pane = pane_of(host.home, slug);
            let first = begun(host, Task::Shell { slug, transcript, id, command });
            let second = told(first, Report::Done(Ok(())));
            let last = told(second, Report::Ran(Ok(f)));
            &&& asked(first) == Some(EffectView::MakeDirectory { path: pane })
            &&& asked(second) == Some(
                EffectView::Run { invocation: bare(command), directory: pane },
            )
            &&& last matches StepView::Say(
                Outbound::Shell { id: i, slug: s, transcript: t, output, exit_code },
            )
            &&& i == id
            &&& s == slug
            &&& t == transcript
            &&& is_all_of(output, f)
            &&& is_code_of(exit_code, f)
            &&& told(first, Report::Done(Err(e))) == StepView::Say(
                Outbound::Shell {
                    id,
                    slug,
                    transcript,
                    output: "failed to create pane directory: "@ + e@,
                    exit_code: 1,
                },
            )
            &&& told(second, Report::Ran(Err(e))) == StepView::Say(
                Outbound::Shell {
                    id,
                    slug,
                    transcript,
                    output: "failed to execute: "@ + e@,
                    exit_code: 1,
                },
            )
        }),
{
    let out = lossy_text(f.stdout@);
    let err = lossy_text(f.stderr@);
    assert((out + err).take(out.len() as int) =~= out);
    assert((out + err).skip(out.len() as int) =~= err);
}

/// Whether a name in the directory of jobs is that of a job's output: the job,
/// a dot, anything, and the ending of output files.
pub open spec fn is_named_for(name: Seq<char>, job_id: Seq<char>) -> bool {
    &&& exists|rest: Seq<char>| name == #[trigger] (job_id + "."@ + rest)
    &&& exists|rest: Seq<char>| name == #[trigger] (rest + ".job"@)
}

proof fn names_of_outputs(name: Seq<char>, job_id: Seq<char>)
    ensures
        crate::jobs::is_output_of(job_id, name) <==> is_named_for(name, job_id),
{
    let p = job_id + "."@;
    if crate::text::starts_with(name, p) {
        assert(name =~= p + name.skip(p.len() as int));
    }
    if crate::text::ends_with(name, ".job"@) {
        assert(name =~= name.take(name.len() - ".job"@.len()) + ".job"@);
    }
    assert forall|rest: Seq<char>| name == #[trigger] (p + rest) implies crate::text::starts_with(
        name,
        p,
    ) by {
        assert(name.take(p.len() as int) =~= p);
    }
    assert forall|rest: Seq<char>| name == #[trigger] (rest + ".job"@) implies
        crate::text::ends_with(name, ".job"@) by {
        assert(name.skip(name.len() - ".job"@.len()) =~= ".job"@);
    }
}

/// Whether an entry of the directory of jobs is a name that is not a job's output.
pub open spec fn is_other(entry: Result<Option<String>, String>, job_id: Seq<char>) -> bool {
    match entry {
        Ok(Some(name)) => !is_named_for(name@, job_id),
        Ok(None) => true,
        Err(_) => false,
    }
}

proof fn others_are_passed_over(
    job_id: Seq<char>,
    names: Seq<Result<Option<String>, String>>,
    from: int,
    to: int,
)
    requires
        0 <= from <= to <= names.len(),
        forall|i: int| from <= i < to ==> is_other(#[trigger] names[i], job_id),
    ensures
        output_name(job_id, names, from) == output_name(job_id, names, to),
    decreases to - from,
{
    if from < to {
        assert(is_other(names[from], job_id));
        if let Ok(Some(name)) = names[from] {
            names_of_outputs(name@, job_id);
        }
        others_are_passed_over(job_id, names, from + 1, to);
    }
}

/// The output of a job is read from the file that the job writes to while that
/// exists; else from the first file in the directory of jobs that is named for
/// the job. The answer says where the output is and holds all of it.
pub proof fn the_output_of_jobs_is_shown(
    host: Host<Seq<char>>,
    slug: Seq<char>,
    call_id: Seq<char>,
    job_id: Seq<char>,
    names: Vec<Result<Option<String>, String>>,
    i: int,
    text: String,
)
    requires
        0 <= i <= names@.len(),
        forall|k: int| 0 <= k < i ==> is_other(#[trigger] names@[k], job_id),
    ensures
        ({
            let running = running_of(host.home, slug, host.identity, job_id);
            let jobs = jobs_of(host.home, slug, host.identity);
            let first = begun(host, Task::Job { slug, call_id, job_id });
            let there = told(first, Report::Exists(Ok(true)));
            let gone = told(first, Report::Exists(Ok(false)));
            let listed = told(gone, Report::Names(Ok(names)));
            &&& asked(first) == Some(EffectView::Exists { path: running })
            &&& asked(there) == Some(EffectView::ReadText { path: running })
            &&& told(there, Report::Text(Ok(text))) == answer(
                call_id,
                "job "@ + job_id + " output at "@ + running + "\n\n"@ + text@,
                0,
            )
            &&& asked(gone) == Some(EffectView::List { path: jobs })
            &&& i == names@.len() ==> listed == answer(
                call_id,
                "job "@ + job_id + " not found on "@ + host.identity,
                1,
            )
            &&& i < names@.len() && names@[i] is Err ==> listed == answer(
                call_id,
                "failed to find job "@ + job_id + ": "@ + names@[i]->Err_0@,
                1,
            )
            &&& i < names@.len() && names@[i] is Ok && names@[i]->Ok_0 is Some ==> {
                let name = names@[i]->Ok_0->Some_0@;
                is_named_for(name, job_id) ==> {
                    &&& asked(listed) == Some(EffectView::ReadText { path: joined(jobs, name) })
                    &&& told(listed, Report::Text(Ok(text))) == answer(
                        call_id,
                        "job "@ + job_id + " output at "@ + joined(jobs, name) + "\n\n"@ + text@,
                        0,
                    )
                }
            }
        }),
{
    others_are_passed_over(job_id, names@, 0, i);
    if i < names@.len() {
        if let Ok(Some(name)) = names@[i] {
            names_of_outputs(name@, job_id);
        }
    }
}

/// A job whose output cannot be looked for or read is answered with why.
pub proof fn output_that_cannot_be_read_is_answered_with_why(
    host: Host<Seq<char>>,
    slug: Seq<char>,
    call_id: Seq<char>,
    job_id: Seq<char>,
    e: String,
)
    ensures
        ({
            let first = begun(host, Task::Job { slug, call_id, job_id });
            let there = told(first, Report::Exists(Ok(true)));
            let gone = told(first, Report::Exists(Ok(false)));
            let lost = answer(call_id, "failed to find job "@ + job_id + ": "@ + e@, 1);
            &&& told(first, Report::Exists(Err(e))) == lost
            &&& told(gone, Report::Names(Err(e))) == lost
            &&& told(there, Report::Text(Err(e))) == answer(
                call_id,
                "failed to read job "@ + job_id + ": "@ + e@,
                1,
            )
        }),
{
}

/// Whether a path is in one of the directories that a slug may write to.
pub open spec fn may_be_written(
    host: Host<Seq<char>>,
    slug: Seq<char>,
    config: Option<String>,
    path: Seq<char>,
) -> bool {
    exists|k: int|
        0 <= k < roots(host.home, slug, maybe(config)).len() && leads_into(
            #[trigger] roots(host.home, slug, maybe(config))[k],
            joined(host.directory, path),
        )
}

/// The call to apply a patch, once its paths are known.
pub open spec fn patch_parsed(
    host: Host<Seq<char>>,
    slug: Seq<char>,
    call_id: Seq<char>,
    patch: Seq<char>,
    config: Option<String>,
    paths: Vec<String>,
) -> StepView {
    let first = begun(host, Task::ApplyPatch { slug, call_id, patch });
    told(told(first, Report::Config(config)), Report::Paths(Ok(paths)))
}

proof fn allowed_paths_are_passed_over(
    directory: Seq<char>,
    paths: Seq<Seq<char>>,
    writable: Seq<Seq<char>>,
    from: int,
    to: int,
)
    requires
        0 <= from <= to <= paths.len(),
        forall|i: int|
            from <= i < to ==> is_writable(joined(directory, #[trigger] paths[i]), writable),
    ensures
        denied_path(directory, paths, writable, from) == denied_path(
            directory,
            paths,
            writable,
            to,
        ),
    decreases to - from,
{
    if from < to {
        assert(is_writable(joined(directory, paths[from]), writable));
        allowed_paths_are_passed_over(directory, paths, writable, from + 1, to);
    }
}

/// A patch is parsed, and then applied if every path that it touches is in a
/// directory that its slug may write to. Else nothing of it is applied, and the
/// answer names the first path that is not.
pub proof fn patches_are_applied_where_they_may_write(
    host: Host<Seq<char>>,
    slug: Seq<char>,
    call_id: Seq<char>,
    patch: Seq<char>,
    config: Option<String>,
    paths: Vec<String>,
    n: int,
)
    requires
        0 <= n <= paths@.len(),
        forall|i: int| 0 <= i < n ==> may_be_written(host, slug, config, #[trigger] paths@[i]@),
    ensures
        ({
            let first = begun(host, Task::ApplyPatch { slug, call_id, patch });
            let second = told(first, Report::Config(config));
            let third = patch_parsed(host, slug, call_id, patch, config, paths);
            &&& asked(first) == Some(
                EffectView::ReadConfig { path: sandbox_file_of(host.home, slug) },
            )
            &&& asked(second) == Some(EffectView::ParsePatch { patch })
            &&& n == paths@.len() ==> asked(third) == Some(EffectView::ApplyPatch)
            &&& n < paths@.len() && !may_be_written(host, slug, config, paths@[n]@) ==> third
                == answer(
                call_id,
                "patch denied: "@ + joined(host.directory, paths@[n]@)
                    + " is not inside a writable root"@,
                1,
            )
        }),
{
    let all = texts(paths@);
    let writable = roots(host.home, slug, maybe(config));
    assert forall|i: int| 0 <= i < n implies is_writable(
        joined(host.directory, #[trigger] all[i]),
        writable,
    ) by {
        assert(all[i] == paths@[i]@);
        assert(may_be_written(host, slug, config, paths@[i]@));
    }
    allowed_paths_are_passed_over(host.directory, all, writable, 0, n);
    if n < paths@.len() {
        assert(all[n] == paths@[n]@);
    }
}

/// A patch that touches only what is below its slug's own directory is applied,
/// whatever the configuration is, and without one too.
pub proof fn patches_below_the_slugs_own_directory_are_applied(
    host: Host<Seq<char>>,
    slug: Seq<char>,
    call_id: Seq<char>,
    patch: Seq<char>,
    config: Option<String>,
    paths: Vec<String>,
    rests: Seq<Seq<char>>,
)
    requires
        !is_relative(pane_of(host.home, slug)),
        rests.len() == paths@.len(),
        forall|i: int|
            0 <= i < rests.len() ==> goes_down(#[trigger] rests[i]) && joined(
                host.directory,
                paths@[i]@,
            ) == below(pane_of(host.home, slug), rests[i]),
    ensures
        asked(patch_parsed(host, slug, call_id, patch, config, paths)) == Some(
            EffectView::ApplyPatch,
        ),
{
    a_slug_may_write_to_its_own_directory(host.home, slug, maybe(config));
    let pane = pane_of(host.home, slug);
    assert forall|i: int| 0 <= i < paths@.len() implies may_be_written(
        host,
        slug,
        config,
        #[trigger] paths@[i]@,
    ) by {
        assert(goes_down(rests[i]));
        what_is_below_a_directory_leads_into_it(pane, rests[i]);
        assert(leads_into(
            roots(host.home, slug, maybe(config))[0],
            joined(host.directory, paths@[i]@),
        ));
    }
    patches_are_applied_where_they_may_write(
        host,
        slug,
        call_id,
        patch,
        config,
        paths,
        paths@.len() as int,
    );
}

/// A patch whose paths are given from the root on, each of them below the
/// directory `pane` of the home directory and the slug's directory in it, is
/// applied, whatever the configuration is, and without one too.
pub proof fn patches_below_the_pane_are_applied(
    host: Host<Seq<char>>,
    slug: Seq<char>,
    call_id: Seq<char>,
    patch: Seq<char>,
    config: Option<String>,
    paths: Vec<String>,
    rests: Seq<Seq<char>>,
)
    requires
        is_directory(host.home) && !is_relative(host.home),
        is_directory(slug) && is_relative(slug),
        rests.len() == paths@.len(),
        forall|i: int|
            0 <= i < rests.len() ==> goes_down(#[trigger] rests[i]) && paths@[i]@ == below(
                below(below(host.home, "pane"@), slug),
                rests[i],
            ),
    ensures
        asked(patch_parsed(host, slug, call_id, patch, config, paths)) == Some(
            EffectView::ApplyPatch,
        ),
{
    let pane = below(below(host.home, "pane"@), slug);
    reveal_strlit("x");
    assert(is_directory("x"@) && is_relative("x"@));
    things_are_below_the_home_directory(host.home, slug, "x"@, "x"@, 0);
    assert(pane[0] == host.home[0]);
    assert forall|i: int| 0 <= i < rests.len() implies goes_down(#[trigger] rests[i]) && joined(
        host.directory,
        paths@[i]@,
    ) == below(pane, rests[i]) by {
        assert(below(pane, rests[i])[0] == pane[0]);
        paths_start_at_the_root_or_at_a_directory(host.directory, paths@[i]@);
    }
    patches_below_the_slugs_own_directory_are_applied(
        host,
        slug,
        call_id,
        patch,
        config,
        paths,
        rests,
    );
}

/// A patch that cannot be parsed is answered with why. One that was applied is
/// answered with what that wrote; one that failed, with what that complained of
/// and why.
pub proof fn patches_are_answered(
    host: Host<Seq<char>>,
    slug: Seq<char>,
    call_id: Seq<char>,
    patch: Seq<char>,
    config: Option<String>,
    paths: Vec<String>,
    patched: Patched,
    e: String,
)
    requires
        asked(patch_parsed(host, slug, call_id, patch, config, paths)) == Some(
            EffectView::ApplyPatch,
        ),
    ensures
        ({
            let first = begun(host, Task::ApplyPatch { slug, call_id, patch });
            let second = told(first, Report::Config(config));
            let third = patch_parsed(host, slug, call_id, patch, config, paths);
            let last = told(third, Report::Patched(patched));
            let complaints = lossy_text(patched.stderr@);
            &&& told(second, Report::Paths(Err(e))) == answer(
                call_id,
                "patch parse error: "@ + e@,
                1,
            )
            &&& patched.error is None ==> last == answer(
                call_id,
                trimmed_end(lossy_text(patched.stdout@)),
                0,
            )
            &&& patched.error matches Some(why) ==> last == answer(
                call_id,
                if complaints.len() == 0 {
                    "patch failed: "@ + why@
                } else {
                    trimmed_end(complaints) + "\npatch failed: "@ + why@
                },
                1,
            )
        }),
{
}

/// The content that shows an image: a line with its path, its size and its media
/// type, and the image itself with that media type.
pub open spec fn shows_image(
    output: Seq<char>,
    path: Seq<char>,
    width: u32,
    height: u32,
    media: Seq<char>,
    bytes: Seq<u8>,
) -> bool {
    output == "[{\"text\":"@ + json_quoted(
        path + " ("@ + decimal(width as nat) + "x"@ + decimal(height as nat) + " "@ + media + ")"@,
    ) + ",\"type\":\"text\"},{\"data\":"@ + json_quoted(base64_encoded(bytes)) + ",\"mimeType\":"@
        + json_quoted(media) + ",\"type\":\"image\"}]"@
}

/// An image is read from the path that the call gives, from the working directory
/// on. If neither edge is longer than 1568 pixels, it is shown as it is, under
/// that path and with the media type that the path's extension names; else it is
/// shown scaled down, as a JPEG, with the size that it was scaled to.
pub proof fn images_are_shown_under_their_path(
    host: Host<Seq<char>>,
    call_id: Seq<char>,
    path: Seq<char>,
    bytes: Vec<u8>,
    width: u32,
    height: u32,
)
    requires
        image_size(bytes@) == Ok::<(u32, u32), Seq<char>>((width, height)),
    ensures
        ({
            let file = joined(host.directory, path);
            let first = begun(host, Task::ViewImage { call_id, path });
            let last = told(first, Report::Bytes(Ok(bytes)));
            &&& asked(first) == Some(EffectView::ReadBytes { path: file })
            &&& width <= 1568 && height <= 1568 ==> (last matches StepView::Say(
                Outbound::Tool(ToolOutbound::Response { call_id: c, output, exit_code }),
            ) && c == call_id && exit_code == 0 && shows_image(
                output,
                file,
                width,
                height,
                media_type_of(file),
                bytes@,
            ))
            &&& width > 1568 || height > 1568 ==> (image_shrunk(bytes@, 1568) matches Some(
                (jpeg, w, h),
            ) ==> (last matches StepView::Say(
                Outbound::Tool(ToolOutbound::Response { call_id: c, output, exit_code }),
            ) && c == call_id && exit_code == 0 && shows_image(
                output,
                file,
                w,
                h,
                "image/jpeg"@,
                jpeg,
            )))
        }),
{
}

/// An image that cannot be read or decoded is answered with why.
pub proof fn images_that_cannot_be_shown_are_answered_with_why(
    host: Host<Seq<char>>,
    call_id: Seq<char>,
    path: Seq<char>,
    bytes: Vec<u8>,
    e: String,
)
    ensures
        ({
            let first = begun(host, Task::ViewImage { call_id, path });
            &&& told(first, Report::Bytes(Err(e))) == answer(
                call_id,
                "cannot read image: "@ + e@,
                1,
            )
            &&& image_size(bytes@) matches Err(why) ==> told(first, Report::Bytes(Ok(bytes)))
                == answer(call_id, "cannot decode image: "@ + why, 1)
        }),
{
}

/// Calls that are about the running jobs are handed on as they are.
pub proof fn calls_about_running_jobs_are_handed_on(
    host: Host<Seq<char>>,
    slug: Seq<char>,
    transcript: Seq<char>,
    call_id: Seq<char>,
    job_id: Seq<char>,
)
    ensures
        begun(host, Task::Jobs { slug, transcript, call_id }) == StepView::Consult(
            Task::Jobs { slug, transcript, call_id },
        ),
        begun(host, Task::Kill { slug, transcript, call_id, job_id }) == StepView::Consult(
            Task::Kill { slug, transcript, call_id, job_id },
        ),
{
}

/// A call that is told of something that it did not ask for is answered with that.
pub proof fn unexpected_reports_are_answered(
    host: Host<Seq<char>>,
    slug: Seq<char>,
    call_id: Seq<char>,
    text: Seq<char>,
    done: Result<(), String>,
    run: Result<Finished, String>,
)
    ensures
        ({
            let lost = answer(call_id, "the call does not wait for this report"@, 1);
            let image = begun(host, Task::ViewImage { call_id, path: text });
            let pdf = begun(host, Task::ReadPdf { call_id, path: text });
            let patch = begun(host, Task::ApplyPatch { slug, call_id, patch: text });
            let job = begun(host, Task::Job { slug, call_id, job_id: text });
            &&& told(image, Report::Done(done)) == lost && told(image, Report::Ran(run)) == lost
            &&& told(pdf, Report::Done(done)) == lost && told(pdf, Report::Ran(run)) == lost
            &&& told(patch, Report::Done(done)) == lost && told(patch, Report::Ran(run)) == lost
            &&& told(job, Report::Done(done)) == lost && told(job, Report::Ran(run)) == lost
        }),
{
}

} // verus!
