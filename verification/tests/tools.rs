//! The calls that the executor carries out, and what it answers.

use std::io::Cursor;

use wicket::jobs::{
    answer_jobs, answer_kill, append_job_stream, job_exited, names_output, Jobs, Kill,
    RunningJobInfo,
};
use wicket::location::{
    finished_job_path, job_dir, pane_dir, resolve_tool_path, running_job_path, sandbox_file,
    wicket_state_dir,
};
use wicket::message::{channel, route, tools, Channel, Inbound, Outbound, Task, ToolCall, ToolOutbound};
use wicket::patch::{answer_patch, find_denied, Patched};
use wicket::pdf::{answer_pdf, check_pdf, parse_number, pdf_page_count, read_pages, MAX_PAGES};
use wicket::picture::{answer_image, media_type, show_image, MAX_EDGE};
use wicket::process::{combined_output, exit_code, Finished};
use wicket::sandbox::{
    build_bubblewrap_command, build_command, build_sandbox_command, build_seatbelt_command,
    environment, expand_home, read_sandbox_config, Invocation, Kind, SandboxConfig,
};
use wicket::tool::{Call, Effect, Host, Report, Started, Step};

fn host() -> Host {
    Host {
        home: "/home/me".into(),
        identity: "build-1".into(),
        directory: "/work".into(),
        temporary: "/var/tmp".into(),
        sandbox: Kind::Bubblewrap,
    }
}

fn zsh(escalate: bool, background: bool) -> Inbound {
    Inbound::Tool {
        slug: "test".into(),
        transcript: "main".into(),
        call_id: "call-1".into(),
        tool: ToolCall::Zsh {
            command: "echo hi".into(),
            place: "build-1".into(),
            run_in_background: background,
            timeout: None,
            escalate,
        },
    }
}

fn tool(tool: ToolCall) -> Inbound {
    Inbound::Tool {
        slug: "test".into(),
        transcript: "main".into(),
        call_id: "call-1".into(),
        tool,
    }
}

fn start(message: Inbound) -> Step {
    Call::start(host(), route(message, "build-1").unwrap())
}

fn asked(step: Step) -> (Call, Effect) {
    match step {
        Step::Do(call, effect) => (call, effect),
        other => panic!("expected an effect: {other:?}"),
    }
}

fn said(step: Step) -> (String, String, i32) {
    match step {
        Step::Say(Outbound::Tool(ToolOutbound::Response { call_id, output, exit_code })) => {
            (call_id, output, exit_code)
        }
        other => panic!("expected an answer: {other:?}"),
    }
}

fn answer(message: ToolOutbound) -> (String, i32) {
    match message {
        ToolOutbound::Response { call_id, output, exit_code } => {
            assert_eq!(call_id, "call-1");
            (output, exit_code)
        }
        other => panic!("expected an answer: {other:?}"),
    }
}

fn finished(code: Option<i32>, stdout: &str, stderr: &str) -> Finished {
    Finished {
        success: code == Some(0),
        code,
        status: match code {
            Some(code) => format!("exit status: {code}"),
            None => "signal: 9 (SIGKILL)".into(),
        },
        stdout: stdout.into(),
        stderr: stderr.into(),
    }
}

fn bubblewrapped() -> Invocation {
    let config = SandboxConfig { writable: vec!["/home/me/pane/test".into(), "/data".into()] };
    build_bubblewrap_command("echo hi", &config)
}

#[test]
fn places_below_the_home_directory() {
    assert_eq!(pane_dir("/home/me", "test"), "/home/me/pane/test");
    assert_eq!(pane_dir("", "test"), "pane/test");
    assert_eq!(wicket_state_dir("/home/me", "test"), "/home/me/.local/state/wicket/test");
    assert_eq!(sandbox_file("/home/me", "test"), "/home/me/.local/state/wicket/test/sandbox.conf");
    assert_eq!(job_dir("/home/me", "test", "h"), "/home/me/.local/state/wicket/test/jobs/h");
    assert_eq!(
        running_job_path("/home/me", "test", "h", "j"),
        "/home/me/.local/state/wicket/test/jobs/h/j.running.job"
    );
    assert_eq!(
        finished_job_path("/home/me", "test", "h", "j", -1),
        "/home/me/.local/state/wicket/test/jobs/h/j.-1.job"
    );
    assert_eq!(resolve_tool_path("/work", "a.png"), "/work/a.png");
    assert_eq!(resolve_tool_path("/work", "/a.png"), "/a.png");
    assert_eq!(resolve_tool_path("", "a.png"), "a.png");
}

#[test]
fn sandbox_configurations_list_writable_roots() {
    let text = "# a comment\n\n  writable ~/exports \nwritable /a~/b\r\nreadable /c\nwritable\n";
    let config = read_sandbox_config("/home/me", "test", Some(text));
    assert_eq!(
        config.writable,
        vec!["/home/me/pane/test", "/home/me/exports", "/a/home/me/b"]
    );
    assert_eq!(
        read_sandbox_config("/home/me", "test", None).writable,
        vec!["/home/me/pane/test"]
    );
    assert_eq!(expand_home("~/a:~/b~", "/h"), "/h/a:/h/b~");
}

#[test]
fn sandboxes_bind_only_the_roots() {
    assert_eq!(
        build_command("echo hi"),
        Invocation {
            program: "zsh".into(),
            arguments: vec!["-c".into(), "echo hi".into()],
            environment: environment(),
        }
    );
    let expected: Vec<String> = [
        "--new-session", "--die-with-parent", "--ro-bind", "/", "/", "--dev", "/dev", "--proc",
        "/proc", "--tmpfs", "/tmp", "--unshare-pid", "--bind", "/home/me/pane/test",
        "/home/me/pane/test", "--bind", "/data", "/data", "--", "zsh", "-c", "echo hi",
    ]
    .iter()
    .map(|s| s.to_string())
    .collect();
    let config = SandboxConfig { writable: vec!["/home/me/pane/test".into(), "/data".into()] };
    let invocation = build_sandbox_command(Kind::Bubblewrap, "echo hi", &config, "/var/tmp");
    assert_eq!(
        invocation,
        Invocation { program: "bwrap".into(), arguments: expected, environment: environment() }
    );
    assert_eq!(invocation, bubblewrapped());
}

#[test]
fn commands_know_that_they_run_under_the_executor() {
    let expected = vec![("RUNNING_UNDER_WICKET".to_string(), "1".to_string())];
    assert_eq!(environment(), expected);
    let config = SandboxConfig { writable: Vec::new() };
    assert_eq!(build_command("id").environment, expected);
    for kind in [Kind::Bubblewrap, Kind::Seatbelt] {
        assert_eq!(build_sandbox_command(kind, "id", &config, "/tmp").environment, expected);
    }
}

#[test]
fn seatbelt_policies_deny_by_default() {
    let config = SandboxConfig { writable: vec!["/Users/me/pane/test".into()] };
    let invocation = build_sandbox_command(Kind::Seatbelt, "ls", &config, "/var/folders/T");
    assert_eq!(invocation, build_seatbelt_command("ls", &config, "/var/folders/T"));
    assert_eq!(invocation.program, "/usr/bin/sandbox-exec");
    assert_eq!(invocation.arguments[0], "-p");
    assert_eq!(invocation.arguments[2..], ["--", "zsh", "-c", "ls"]);
    let policy = &invocation.arguments[1];
    assert!(policy.starts_with("(version 1)\n(deny default)\n(allow process-exec)\n"));
    assert!(policy.contains(
        "(allow file-read*)\n(allow file-write* (subpath \"/Users/me/pane/test\"))\n(allow file-write* (subpath \"/tmp\"))\n(allow file-write* (subpath \"/private/tmp\"))\n(allow file-write* (subpath \"/var/folders/T\"))\n(allow file-write-data (require-all (path \"/dev/null\") (vnode-type CHARACTER-DEVICE)))\n"
    ));
    assert!(policy.ends_with("(allow user-preference-read)\n"));
    assert_eq!(policy.lines().count(), 24);
}

#[test]
fn messages_are_told_apart() {
    assert_eq!(channel("tool"), Channel::Call);
    assert_eq!(channel("shell"), Channel::Call);
    assert_eq!(channel("screenshot_save"), Channel::Screenshot);
    assert_eq!(channel("log"), Channel::Ignored);
    assert_eq!(channel(""), Channel::Ignored);
}

#[test]
fn messages_for_other_hosts_are_left_alone() {
    assert_eq!(route(zsh(false, false), "elsewhere"), None);
    assert_eq!(
        route(zsh(true, false), "build-1"),
        Some(Task::Zsh {
            slug: "test".into(),
            transcript: "main".into(),
            call_id: "call-1".into(),
            command: "echo hi".into(),
            sandboxed: false,
            background: false,
        })
    );
    let shell = || Inbound::Shell {
        slug: "test".into(),
        transcript: "main".into(),
        id: "s-1".into(),
        command: "id".into(),
        place: "build-1".into(),
    };
    assert_eq!(route(shell(), "localhost"), None);
    assert!(matches!(route(shell(), "build-1"), Some(Task::Shell { .. })));
    let place = || "build-1".to_string();
    for call in [
        ToolCall::ApplyPatch { patch: "".into(), place: place() },
        ToolCall::ViewImage { path: "".into(), place: place() },
        ToolCall::ReadPdf { path: "".into(), place: place() },
        ToolCall::Job { job_id: "".into(), place: place() },
        ToolCall::Jobs { place: place() },
        ToolCall::Kill { job_id: "".into(), place: place() },
    ] {
        assert!(route(tool(call), "build-1").is_some());
    }
}

#[test]
fn the_shell_is_not_among_the_tools() {
    let offered = tools();
    let names: Vec<&str> = offered.iter().map(|t| t.f.as_str()).collect();
    assert_eq!(
        names,
        ["zsh", "apply_patch", "view_image", "read_pdf", "job", "jobs", "kill"]
    );
    assert!(offered[0].description.starts_with("Execute a command in a sandboxed Zsh shell."));
    assert!(offered[6].description.ends_with("where (string, required — the host identity)."));
}

#[test]
fn commands_run_in_the_sandbox() {
    let (call, effect) = asked(start(zsh(false, false)));
    assert!(matches!(effect, Effect::MakeDirectory { path } if path == "/home/me/pane/test"));
    let (call, effect) = asked(call.advance(Report::Done(Ok(()))));
    assert!(
        matches!(effect, Effect::ReadConfig { path } if path == "/home/me/.local/state/wicket/test/sandbox.conf")
    );
    let (call, effect) = asked(call.advance(Report::Config(Some("writable /data\n".into()))));
    match effect {
        Effect::Run { invocation, directory } => {
            assert_eq!(invocation, bubblewrapped());
            assert_eq!(directory, "/home/me/pane/test");
        }
        other => panic!("expected a run: {other:?}"),
    }
    let run = finished(Some(3), "out\n", "err\n");
    assert_eq!(
        said(call.advance(Report::Ran(Ok(run)))),
        ("call-1".into(), "out\nerr\n".into(), 3)
    );
}

#[test]
fn only_escalated_commands_leave_the_sandbox() {
    let (call, _) = asked(start(zsh(true, false)));
    let (call, effect) = asked(call.advance(Report::Done(Ok(()))));
    assert!(
        matches!(effect, Effect::Run { invocation, .. } if invocation == build_command("echo hi"))
    );
    let run = finished(None, "", "killed");
    assert_eq!(
        said(call.advance(Report::Ran(Ok(run)))),
        ("call-1".into(), "killed".into(), -1)
    );
    let (call, _) = asked(start(zsh(true, false)));
    assert_eq!(
        said(call.advance(Report::Done(Err("no space".into())))).1,
        "failed to create pane directory: no space"
    );
    let (call, _) = asked(start(zsh(true, false)));
    let (call, _) = asked(call.advance(Report::Done(Ok(()))));
    assert_eq!(
        said(call.advance(Report::Ran(Err("no zsh".into())))),
        ("call-1".into(), "failed to execute: no zsh".into(), 1)
    );
}

fn spawning() -> Call {
    let (call, _) = asked(start(zsh(true, true)));
    let (call, effect) = asked(call.advance(Report::Done(Ok(()))));
    match effect {
        Effect::CreateOutput { directory, path } => {
            assert_eq!(directory, "/home/me/.local/state/wicket/test/jobs/build-1");
            assert_eq!(path, format!("{directory}/call-1.running.job"));
        }
        other => panic!("expected an output file: {other:?}"),
    }
    let (call, effect) = asked(call.advance(Report::Done(Ok(()))));
    assert!(matches!(effect, Effect::Spawn { .. }));
    call
}

#[test]
fn background_jobs_are_started_and_answered_at_once() {
    let started: Started = match spawning().advance(Report::Done(Ok(()))) {
        Step::Start(started) => started,
        other => panic!("expected a start: {other:?}"),
    };
    let path = "/home/me/.local/state/wicket/test/jobs/build-1/call-1.running.job";
    assert_eq!(started.job_id, "call-1");
    assert_eq!(started.transcript, "main");
    assert_eq!(started.output_path, path);
    match started.message {
        Outbound::Tool(message) => assert_eq!(
            answer(message),
            (format!("Background job call-1 started. Output: {path}"), 0)
        ),
        other => panic!("expected an answer: {other:?}"),
    }
    assert_eq!(
        said(spawning().advance(Report::Done(Err("no fork".into())))).1,
        "failed to spawn background task: no fork"
    );
    let (call, _) = asked(start(zsh(false, true)));
    let (call, _) = asked(call.advance(Report::Done(Ok(()))));
    assert_eq!(
        said(call.advance(Report::Done(Err("read-only".into())))).1,
        "failed to create output file: read-only"
    );
}

#[test]
fn the_operator_shell_is_answered_under_its_own_name() {
    let shell = || Inbound::Shell {
        slug: "test".into(),
        transcript: "main".into(),
        id: "s-1".into(),
        command: "id".into(),
        place: "build-1".into(),
    };
    let expect = |step: Step, output: &str, exit_code: i32| match step {
        Step::Say(message) => assert_eq!(
            message,
            Outbound::Shell {
                id: "s-1".into(),
                slug: "test".into(),
                transcript: "main".into(),
                output: output.into(),
                exit_code,
            }
        ),
        other => panic!("expected an answer: {other:?}"),
    };
    let (call, _) = asked(start(shell()));
    expect(
        call.advance(Report::Done(Err("full".into()))),
        "failed to create pane directory: full",
        1,
    );
    let (call, _) = asked(start(shell()));
    let (call, effect) = asked(call.advance(Report::Done(Ok(()))));
    assert!(matches!(effect, Effect::Run { invocation, .. } if invocation == build_command("id")));
    expect(call.advance(Report::Ran(Ok(finished(Some(0), "uid", "")))), "uid", 0);
    let (call, _) = asked(start(shell()));
    let (call, _) = asked(call.advance(Report::Done(Ok(()))));
    expect(call.advance(Report::Ran(Err("gone".into()))), "failed to execute: gone", 1);
}

fn job() -> Inbound {
    tool(ToolCall::Job { job_id: "j".into(), place: "build-1".into() })
}

#[test]
fn job_output_is_found_under_either_name() {
    let directory = "/home/me/.local/state/wicket/test/jobs/build-1";
    let (call, effect) = asked(start(job()));
    assert!(
        matches!(effect, Effect::Exists { path } if path == format!("{directory}/j.running.job"))
    );
    let (call, effect) = asked(call.advance(Report::Exists(Ok(true))));
    assert!(
        matches!(effect, Effect::ReadText { path } if path == format!("{directory}/j.running.job"))
    );
    assert_eq!(
        said(call.advance(Report::Text(Ok("line\n".into())))),
        ("call-1".into(), format!("job j output at {directory}/j.running.job\n\nline\n"), 0)
    );
    let (call, _) = asked(start(job()));
    let (call, effect) = asked(call.advance(Report::Exists(Ok(false))));
    assert!(matches!(effect, Effect::List { path } if path == directory));
    let names = vec![Ok(None), Ok(Some("jj.0.job".into())), Ok(Some("j.0.job".into()))];
    let (call, effect) = asked(call.advance(Report::Names(Ok(names))));
    assert!(matches!(effect, Effect::ReadText { path } if path == format!("{directory}/j.0.job")));
    assert_eq!(
        said(call.advance(Report::Text(Err("denied".into())))),
        ("call-1".into(), "failed to read job j: denied".into(), 1)
    );
}

#[test]
fn missing_job_output_is_reported() {
    let listed = || asked(asked(start(job())).0.advance(Report::Exists(Ok(false)))).0;
    assert_eq!(
        said(listed().advance(Report::Names(Ok(vec![Ok(Some("j.log".into()))])))).1,
        "job j not found on build-1"
    );
    assert_eq!(
        said(listed().advance(Report::Names(Err("no directory".into())))).1,
        "failed to find job j: no directory"
    );
    assert_eq!(
        said(listed().advance(Report::Names(Ok(vec![Err("i/o".into())])))).1,
        "failed to find job j: i/o"
    );
    let (call, _) = asked(start(job()));
    assert_eq!(
        said(call.advance(Report::Exists(Err("i/o".into())))).1,
        "failed to find job j: i/o"
    );
    assert!(names_output("j", "j.running.job"));
    assert!(!names_output("j", "j.job.txt"));
    assert!(!names_output("j", "jj.0.job"));
}

#[test]
fn reports_that_nobody_waits_for_end_a_call() {
    let (call, _) = asked(start(job()));
    assert_eq!(
        said(call.advance(Report::Done(Ok(())))),
        ("call-1".into(), "the call does not wait for this report".into(), 1)
    );
}

#[test]
fn calls_about_running_jobs_are_for_their_keeper() {
    let step = start(tool(ToolCall::Jobs { place: "build-1".into() }));
    assert!(matches!(step, Step::Consult(Task::Jobs { .. })));
    let step = start(tool(ToolCall::Kill { job_id: "j".into(), place: "build-1".into() }));
    assert!(matches!(step, Step::Consult(Task::Kill { .. })));
}

fn info(job_id: &str, transcript: &str) -> RunningJobInfo {
    RunningJobInfo {
        job_id: job_id.into(),
        slug: "test".into(),
        transcript: transcript.into(),
        place: "h".into(),
        command: "sleep \"1\"".into(),
        output_path: format!("/jobs/{job_id}.running.job"),
        started_at: "then".into(),
    }
}

#[test]
fn a_job_is_killed_once_and_only_by_its_own_transcript() {
    let mut jobs = Jobs::new();
    jobs.insert(info("a", "main"));
    jobs.insert(info("b", "other"));
    assert_eq!(jobs.kill("test", "main", "h", "b"), Kill::NotRunning);
    assert_eq!(jobs.kill("test", "main", "elsewhere", "a"), Kill::NotRunning);
    assert_eq!(jobs.kill("test", "main", "h", "c"), Kill::NotRunning);
    assert_eq!(jobs.kill("test", "main", "h", "a"), Kill::Deliver);
    assert_eq!(jobs.kill("test", "main", "h", "a"), Kill::AlreadyRequested);
    jobs.remove("a");
    assert_eq!(jobs.kill("test", "main", "h", "a"), Kill::NotRunning);
    let say = |kill: Kill, sent: bool| {
        answer(answer_kill(kill, sent, "call-1", "test", "main", "h", "a"))
    };
    assert_eq!(
        say(Kill::NotRunning, false),
        ("job a is not running for slug test transcript main on h".into(), 1)
    );
    assert_eq!(
        say(Kill::AlreadyRequested, false),
        ("kill already requested for job a".into(), 1)
    );
    assert_eq!(say(Kill::Deliver, true), ("kill requested for job a".into(), 0));
    assert_eq!(
        say(Kill::Deliver, false),
        ("job a finished before kill request was delivered".into(), 1)
    );
}

#[test]
fn a_transcript_sees_its_own_jobs() {
    let mut jobs = Jobs::new();
    jobs.insert(info("a", "main"));
    jobs.insert(info("b", "other"));
    jobs.insert(info("c", "main"));
    jobs.insert(info("a", "main"));
    let own = jobs.of_transcript("test", "main", "h");
    let names: Vec<&str> = own.iter().map(|j| j.job_id.as_str()).collect();
    assert_eq!(names, ["c", "a"]);
    let (listing, code) = answer(answer_jobs(&own, "call-1", "test", "main", "h"));
    assert_eq!(code, 0);
    let row = |id: &str| {
        format!("  {{\n    \"job_id\": \"{id}\",\n    \"slug\": \"test\",\n    \"transcript\": \"main\",\n    \"where\": \"h\",\n    \"command\": \"sleep \\\"1\\\"\",\n    \"output_path\": \"/jobs/{id}.running.job\",\n    \"started_at\": \"then\"\n  }}")
    };
    assert_eq!(listing, format!("[\n{},\n{}\n]", row("c"), row("a")));
    let value: serde_json::Value = serde_json::from_str(&listing).unwrap();
    assert_eq!(serde_json::to_string_pretty(&value).unwrap().len(), listing.len());
    let none = jobs.of_transcript("test", "nobody", "h");
    assert_eq!(
        answer(answer_jobs(&none, "call-1", "test", "nobody", "h")),
        ("no running jobs for slug test transcript nobody on h".into(), 0)
    );
}

#[test]
fn registered_jobs_carry_the_time() {
    let mut jobs = Jobs::new();
    jobs.register("test", "main", "h", "a", "sleep 1", "/jobs/a.running.job");
    let own = jobs.of_transcript("test", "main", "h");
    assert_eq!(own.len(), 1);
    assert_eq!(own[0].command, "sleep 1");
    let time = &own[0].started_at;
    assert_eq!(time.len(), "2026-09-20T20:00:00.000Z".len());
    assert!(time.ends_with('Z') && time.contains('T'));
}

#[test]
fn lines_are_sent_only_from_other_hosts() {
    assert_eq!(append_job_stream("j", "/p", "localhost", "x\n"), None);
    assert_eq!(
        append_job_stream("j", "/p", "h", " x \r\n"),
        Some(ToolOutbound::BackgroundOutput {
            job_id: "j".into(),
            output_path: "/p".into(),
            line: " x".into(),
        })
    );
}

#[test]
fn exits_name_where_the_output_is() {
    let meta = |renamed: bool| match job_exited("/home/me", "h", "test", "main", "j", -1, renamed) {
        ToolOutbound::Notification { slug, transcript, message, meta } => {
            assert_eq!((slug.as_str(), transcript.as_str()), ("test", "main"));
            assert_eq!(message, "Background job exited.");
            meta.unwrap()
        }
        other => panic!("expected a notification: {other:?}"),
    };
    assert_eq!(
        meta(true),
        "job_id=j where=h exit_code=-1 output_path=/home/me/.local/state/wicket/test/jobs/h/j.-1.job"
    );
    assert_eq!(
        meta(false),
        "job_id=j where=h exit_code=-1 output_path=/home/me/.local/state/wicket/test/jobs/h/j.running.job"
    );
}

#[test]
fn programs_are_quoted_losslessly_where_they_write_text() {
    assert_eq!(combined_output(&finished(Some(0), "a", "")), "a");
    let mut odd = finished(Some(0), "", "b");
    odd.stdout = vec![0x61, 0xff];
    assert_eq!(combined_output(&odd), "a\u{fffd}b");
    assert_eq!(exit_code(Some(7)), 7);
    assert_eq!(exit_code(None), -1);
}

fn patch_call(config: Option<&str>, paths: Vec<&str>) -> Step {
    let call = ToolCall::ApplyPatch { patch: "*** Begin Patch".into(), place: "build-1".into() };
    let (call, effect) = asked(start(tool(call)));
    assert!(matches!(effect, Effect::ReadConfig { .. }));
    let (call, effect) = asked(call.advance(Report::Config(config.map(str::to_owned))));
    assert!(matches!(effect, Effect::ParsePatch { patch } if patch == "*** Begin Patch"));
    call.advance(Report::Paths(Ok(paths.iter().map(|p| p.to_string()).collect())))
}

#[test]
fn patches_stay_within_the_writable_roots() {
    assert_eq!(
        said(patch_call(None, vec!["a.txt"])),
        (
            "call-1".into(),
            "patch denied: /work/a.txt is not inside a writable root".into(),
            1
        )
    );
    assert_eq!(
        said(patch_call(Some("writable /work"), vec!["a.txt", "/etc/passwd", "/root"])).1,
        "patch denied: /etc/passwd is not inside a writable root"
    );
    let (call, effect) =
        asked(patch_call(Some("writable /work"), vec!["a.txt", "/home/me/pane/test/b"]));
    assert!(matches!(effect, Effect::ApplyPatch));
    let patched = Patched { stdout: b"done\n".to_vec(), stderr: Vec::new(), error: None };
    assert_eq!(
        said(call.advance(Report::Patched(patched))),
        ("call-1".into(), "done".into(), 0)
    );
    let roots = vec!["/work".to_string()];
    assert_eq!(find_denied("/work", &vec!["x".into()], &roots), None);
    assert_eq!(find_denied("/", &vec!["x".into()], &roots), Some("/x".into()));
}

#[test]
fn patches_are_held_to_the_directories_that_their_paths_lead_to() {
    let roots = vec!["/work".to_string(), "/data/./out/".to_string()];
    let denied = |path: &str| find_denied("/work", &vec![path.into()], &roots);
    assert_eq!(denied("/work-x/f"), Some("/work-x/f".into()));
    assert_eq!(denied("/work/../f"), Some("/work/../f".into()));
    assert_eq!(denied("../work-x/f"), Some("/work/../work-x/f".into()));
    assert_eq!(denied("a/../../f"), Some("/work/a/../../f".into()));
    assert_eq!(denied("a/../f"), None);
    assert_eq!(denied("/work"), None);
    assert_eq!(denied("/etc/../work//a/./f"), None);
    assert_eq!(denied("/data/out/f"), None);
    assert_eq!(denied("/data/output/f"), Some("/data/output/f".into()));
    // The paths of a patch count one by one, a move's target among them.
    assert_eq!(
        said(patch_call(Some("writable /work"), vec!["a.txt", "/work-x/f"])).1,
        "patch denied: /work-x/f is not inside a writable root"
    );
    assert_eq!(
        said(patch_call(Some("writable /work"), vec!["a.txt", "/work/../f"])).1,
        "patch denied: /work/../f is not inside a writable root"
    );
    let (_, effect) = asked(patch_call(Some("writable /work"), vec!["a.txt", "b/../c.txt"]));
    assert!(matches!(effect, Effect::ApplyPatch));
}

#[test]
fn numbers_are_read_digit_by_digit() {
    assert_eq!(parse_number("0"), Ok(0));
    assert_eq!(parse_number("+7"), Ok(7));
    assert_eq!(parse_number("007"), Ok(7));
    assert_eq!(parse_number("4294967295"), Ok(u32::MAX));
    let error = |text: &str| parse_number(text).unwrap_err();
    assert_eq!(error(""), "cannot parse integer from empty string");
    for text in ["+", "-", "-1", "x", "1 ", "++1", "1.5", "\u{663}", "4294967295x"] {
        assert_eq!(error(text), "invalid digit found in string");
    }
    for text in ["4294967296", "42949672950", "42949672950x", "+99999999999"] {
        assert_eq!(error(text), "number too large to fit in target type");
    }
    // Every text is read as the standard library reads it.
    for text in ["", "+", "12", "+0", "4294967296", "1x", "99999999999x", "x99999999999"] {
        assert_eq!(parse_number(text), text.parse::<u32>().map_err(|e| e.to_string()));
    }
}

#[test]
fn failed_patches_say_why() {
    let call = ToolCall::ApplyPatch { patch: "nonsense".into(), place: "build-1".into() };
    let (call, _) = asked(start(tool(call)));
    let (call, _) = asked(call.advance(Report::Config(None)));
    assert_eq!(
        said(call.advance(Report::Paths(Err("no begin marker".into())))).1,
        "patch parse error: no begin marker"
    );
    let failed = |stderr: &str| Patched {
        stdout: b"partly".to_vec(),
        stderr: stderr.into(),
        error: Some("no match".into()),
    };
    assert_eq!(answer(answer_patch("call-1", &failed(""))), ("patch failed: no match".into(), 1));
    assert_eq!(
        answer(answer_patch("call-1", &failed("a.txt: \n"))),
        ("a.txt:\npatch failed: no match".into(), 1)
    );
}

fn picture(width: u32, height: u32) -> Vec<u8> {
    let mut out = Cursor::new(Vec::new());
    image::DynamicImage::new_rgb8(width, height)
        .write_to(&mut out, image::ImageFormat::Png)
        .unwrap();
    out.into_inner()
}

fn encoded(bytes: &[u8]) -> String {
    base64::Engine::encode(&base64::engine::general_purpose::STANDARD, bytes)
}

#[test]
fn small_images_are_shown_as_they_are() {
    let bytes = picture(3, 2);
    let (output, code) = answer(show_image("call-1", "/a \"b\".PNG", &bytes));
    assert_eq!(code, 0);
    assert_eq!(
        output,
        format!("[{{\"text\":\"/a \\\"b\\\".PNG (3x2 image/png)\",\"type\":\"text\"}},{{\"data\":\"{}\",\"mimeType\":\"image/png\",\"type\":\"image\"}}]", encoded(&bytes))
    );
}

#[test]
fn large_images_are_scaled_down() {
    let (output, code) = answer(show_image("call-1", "/wide.png", &picture(3136, 10)));
    assert_eq!(code, 0);
    assert!(output.starts_with("[{\"text\":\"/wide.png (1568x5 image/jpeg)\""));
    let value: serde_json::Value = serde_json::from_str(&output).unwrap();
    let data = value[1]["data"].as_str().unwrap();
    let jpeg =
        base64::Engine::decode(&base64::engine::general_purpose::STANDARD, data).unwrap();
    let small = image::load_from_memory(&jpeg).unwrap();
    assert_eq!((small.width(), small.height()), (MAX_EDGE, 5));
}

#[test]
fn scaled_images_keep_their_proportions() {
    let scaled = |width, height| {
        let (output, code) = answer(show_image("call-1", "/a.png", &picture(width, height)));
        assert_eq!(code, 0);
        output.split('(').nth(1).unwrap().split(' ').next().unwrap().to_owned()
    };
    assert_eq!(scaled(10, 3136), "5x1568");
    assert_eq!(scaled(3000, 20), "1568x10");
    assert_eq!(scaled(3000, 2), "1568x1");
    assert_eq!(scaled(1, 8000), "1x1568");
    assert_eq!(scaled(1569, 1569), "1568x1568");
    assert_eq!(scaled(2000, 1501), "1568x1177");
}

#[test]
fn images_that_cannot_be_shown_are_refused() {
    let (output, code) = answer(show_image("call-1", "/a.png", &b"text".to_vec()));
    assert!(output.starts_with("cannot decode image: "));
    assert_eq!(code, 1);
    let call = ToolCall::ViewImage { path: "a.png".into(), place: "build-1".into() };
    let (call, effect) = asked(start(tool(call)));
    assert!(matches!(effect, Effect::ReadBytes { path } if path == "/work/a.png"));
    assert_eq!(
        said(call.advance(Report::Bytes(Err("gone".into())))),
        ("call-1".into(), "cannot read image: gone".into(), 1)
    );
    let big = answer_image(
        "call-1",
        "/a.gif",
        &vec![1],
        Ok((MAX_EDGE + 1, 1)),
        Some((vec![7], MAX_EDGE, 1)),
    );
    assert_eq!(
        answer(big).0,
        "[{\"text\":\"/a.gif (1568x1 image/jpeg)\",\"type\":\"text\"},{\"data\":\"Bw==\",\"mimeType\":\"image/jpeg\",\"type\":\"image\"}]"
    );
    let edge = answer_image("call-1", "/a.gif", &vec![7], Ok((MAX_EDGE, MAX_EDGE)), None);
    assert!(answer(edge).0.contains("1568x1568 image/gif"));
}

#[test]
fn media_types_follow_the_extension() {
    for (path, expected) in [
        ("/a.jpg", "image/jpeg"),
        ("/a.JPEG", "image/jpeg"),
        ("/a.png", "image/png"),
        ("/a.Gif", "image/gif"),
        ("/a.b.webp", "image/webp"),
        ("/a.bmp", "image/png"),
        ("/gif", "image/png"),
        ("/.gif", "image/png"),
        ("/a.gif/b", "image/png"),
    ] {
        assert_eq!(media_type(path), expected, "{path}");
    }
}

fn pdf_call() -> Call {
    let call = ToolCall::ReadPdf { path: "/a.pdf".into(), place: "build-1".into() };
    let (call, effect) = asked(start(tool(call)));
    assert!(matches!(effect, Effect::ReadBytes { path } if path == "/a.pdf"));
    call
}

#[test]
fn documents_are_checked_before_they_are_shown() {
    assert_eq!(
        said(pdf_call().advance(Report::Bytes(Err("gone".into())))).1,
        "cannot read PDF: gone"
    );
    assert_eq!(
        said(pdf_call().advance(Report::Bytes(Ok(Vec::new())))).1,
        "PDF file is empty: /a.pdf"
    );
    assert_eq!(
        said(pdf_call().advance(Report::Bytes(Ok(b"%PDF".to_vec())))).1,
        "file is not a valid PDF: /a.pdf"
    );
    assert_eq!(check_pdf("/a.pdf", &b"%PDF-".to_vec()), None);
    let (call, effect) = asked(pdf_call().advance(Report::Bytes(Ok(b"%PDF-1.7".to_vec()))));
    assert!(matches!(effect, Effect::CountPages { path } if path == "/a.pdf"));
    let info = finished(Some(0), "Title: x\nPages:          20\nPages: 3\n", "");
    assert_eq!(
        said(call.advance(Report::Ran(Ok(info)))).1,
        "[{\"text\":\"/a.pdf (20 pages, 8 bytes application/pdf)\",\"type\":\"text\"},{\"source\":{\"data\":\"JVBERi0xLjc=\",\"media_type\":\"application/pdf\",\"type\":\"base64\"},\"type\":\"document\"}]"
    );
}

#[test]
fn page_counts_are_read_and_bounded() {
    let count = |f: Finished| pdf_page_count(&Ok(f));
    assert_eq!(count(finished(Some(0), "Pages: 7", "")), Ok(7));
    assert_eq!(
        count(finished(Some(0), "Pages: many", "")),
        Err("invalid pdfinfo Pages value: invalid digit found in string".into())
    );
    assert_eq!(
        count(finished(Some(0), " Pages: 7", "")),
        Err("pdfinfo output did not include a Pages field".into())
    );
    assert_eq!(
        count(finished(Some(1), "", " \n")),
        Err("pdfinfo exited with exit status: 1".into())
    );
    assert_eq!(
        count(finished(Some(1), "", "damaged\n")),
        Err("pdfinfo exited with exit status: 1: damaged".into())
    );
    assert_eq!(
        pdf_page_count(&Err("no such program".into())),
        Err("failed to run pdfinfo: no such program".into())
    );
    assert_eq!(read_pages(Some("x".into()), Ok(3)), Ok(3));
    let bytes = b"%PDF-".to_vec();
    assert_eq!(
        answer(answer_pdf("call-1", "/a.pdf", &bytes, Ok(MAX_PAGES + 1))),
        (
            "PDF has 21 pages, which is too many to send at once. Use a PDF utility to split or render 20 pages or fewer, then read that smaller PDF.".into(),
            1
        )
    );
    assert_eq!(
        answer(answer_pdf("call-1", "/a.pdf", &bytes, Err("damaged".into()))),
        (
            "cannot determine PDF page count for /a.pdf: damaged. Use a PDF utility to split or render a page range first.".into(),
            1
        )
    );
}
