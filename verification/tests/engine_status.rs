use arsh::command::AndOrCommand;
use arsh::command::AndOrCommandList;
use arsh::command::BuiltinCommand;
use arsh::command::Conjunction;
use arsh::command::ListableNode;
use arsh::command::PipeCommands;
use arsh::command::PipeStage;
use arsh::command::Redirect;
use arsh::command::RedirectCommand;
use arsh::command::SimpleCommand;
use arsh::command::SingleCommand;
use arsh::command::SingleKind;
use arsh::command::SubshellCommand;
use arsh::engine::Action;
use arsh::engine::Engine;
use arsh::engine::Event;
use arsh::engine::Mode;
use arsh::errors::ShellError;
use arsh::redirect::OpenMode;
use arsh::redirect::StreamSlot;
use arsh::status::ExecutionStatus;

fn words(ws: &[&str]) -> Vec<String> {
    ws.iter().map(|w| w.to_string()).collect()
}

fn simple(ws: &[&str]) -> ListableNode {
    ListableNode::Single(SingleCommand {
        command: SingleKind::Simple(SimpleCommand { words: words(ws) }),
    })
}

fn list_of(first: ListableNode, rest: Vec<AndOrCommand>) -> AndOrCommandList {
    AndOrCommandList { first, rest }
}

fn plain_list(ws: &[&str]) -> AndOrCommandList {
    list_of(simple(ws), vec![])
}

/// Drive the engine with a scripted sequence of events, recording the
/// spawn requests it emits, until it finishes.
fn drive(mut eng: Engine, mut replies: Vec<Event>) -> (Vec<arsh::engine::SpawnRequest>, Engine, Action) {
    let mut spawns = vec![];
    let mut ev = Event::Start;
    let mut steps = 0;
    loop {
        steps += 1;
        assert!(steps < 1000, "engine did not finish");
        let a = eng.step(ev);
        ev = match a {
            Action::Continue => Event::Start,
            Action::Spawn(req) => {
                spawns.push(req);
                replies.remove(0)
            }
            Action::RunBuiltin(_) => replies.remove(0),
            Action::RunSubshell(_) => replies.remove(0),
            Action::FlushPipe => replies.remove(0),
            Action::ReadPipe => replies.remove(0),
            Action::Done(st) => return (spawns, eng, Action::Done(st)),
            Action::DoneText(t) => return (spawns, eng, Action::DoneText(t)),
        };
    }
}

#[test]
fn simple_status_is_the_reported_code() {
    let eng = Engine::new(vec![plain_list(&["true"])], Mode::Status);
    let (spawns, _, done) = drive(eng, vec![Event::Exited(0)]);
    assert_eq!(spawns.len(), 1);
    assert_eq!(spawns[0].words, words(&["true"]));
    assert!(!spawns[0].stdin_from_pipe);
    assert!(!spawns[0].stdout_to_pipe);
    assert!(spawns[0].redirect.is_none());
    assert!(matches!(done, Action::Done(st) if st.code == 0));

    let eng = Engine::new(vec![plain_list(&["false"])], Mode::Status);
    let (_, _, done) = drive(eng, vec![Event::Exited(42)]);
    assert!(matches!(done, Action::Done(st) if st.code == 42));
}

#[test]
fn spawn_failure_is_failing_status() {
    let eng = Engine::new(vec![plain_list(&["no-such-program"])], Mode::Status);
    let (_, _, done) = drive(eng, vec![Event::StageFailed]);
    assert!(matches!(done, Action::Done(st) if st.code == 1));
}

#[test]
fn negated_pipeline_flips_success() {
    let negated = |code: i32| {
        let p = ListableNode::Pipe(PipeCommands {
            commands: vec![PipeStage::Simple(SimpleCommand { words: words(&["cmd"]) })],
            bang: true,
        });
        let eng = Engine::new(vec![list_of(p, vec![])], Mode::Status);
        let (_, _, done) = drive(eng, vec![Event::Exited(code)]);
        match done {
            Action::Done(st) => st,
            _ => panic!("expected a status"),
        }
    };
    assert_eq!(negated(0).code, 1);
    assert_eq!(negated(3).code, 0);
}

#[test]
fn double_negation_restores_success() {
    let once = arsh::status::negate_status(ExecutionStatus { code: 7 });
    let twice = arsh::status::negate_status(once);
    assert_eq!(twice.code == 0, ExecutionStatus { code: 7 }.code == 0);
    let once = arsh::status::negate_status(ExecutionStatus { code: 0 });
    let twice = arsh::status::negate_status(once);
    assert_eq!(twice.code == 0, true);
}

#[test]
fn and_runs_after_success_and_skips_after_failure() {
    // first exits 0: the && entry must be spawned
    let mk = || {
        list_of(
            simple(&["first"]),
            vec![AndOrCommand { command: simple(&["second"]), conjunction: Conjunction::And }],
        )
    };
    let eng = Engine::new(vec![mk()], Mode::Status);
    let (spawns, _, done) = drive(eng, vec![Event::Exited(0), Event::Exited(0)]);
    assert_eq!(spawns.len(), 2);
    assert_eq!(spawns[1].words, words(&["second"]));
    assert!(matches!(done, Action::Done(st) if st.code == 0));

    // first exits nonzero: the && entry must not run at all
    let eng = Engine::new(vec![mk()], Mode::Status);
    let (spawns, _, done) = drive(eng, vec![Event::Exited(3)]);
    assert_eq!(spawns.len(), 1, "the skipped command must never be spawned");
    assert!(matches!(done, Action::Done(st) if st.code == 1));
}

#[test]
fn or_recovers_from_failure() {
    // the equivalent of `false || true`
    let lists = vec![list_of(
        simple(&["false"]),
        vec![AndOrCommand { command: simple(&["true"]), conjunction: Conjunction::Or }],
    )];
    let eng = Engine::new(lists, Mode::Status);
    let (spawns, _, done) = drive(eng, vec![Event::Exited(1), Event::Exited(0)]);
    assert_eq!(spawns.len(), 2);
    assert_eq!(spawns[1].words, words(&["true"]), "`true` is the one actually executed");
    assert!(matches!(done, Action::Done(st) if st.code == 0));

    // and `true || anything` skips the second
    let lists = vec![list_of(
        simple(&["true"]),
        vec![AndOrCommand { command: simple(&["never"]), conjunction: Conjunction::Or }],
    )];
    let eng = Engine::new(lists, Mode::Status);
    let (spawns, _, done) = drive(eng, vec![Event::Exited(0)]);
    assert_eq!(spawns.len(), 1);
    assert!(matches!(done, Action::Done(st) if st.code == 0));
}

#[test]
fn sequence_always_runs() {
    let lists = vec![list_of(
        simple(&["first"]),
        vec![AndOrCommand { command: simple(&["second"]), conjunction: Conjunction::Sequence }],
    )];
    let eng = Engine::new(lists, Mode::Status);
    let (spawns, _, done) = drive(eng, vec![Event::Exited(9), Event::Exited(4)]);
    assert_eq!(spawns.len(), 2);
    assert!(matches!(done, Action::Done(st) if st.code == 4));
}

#[test]
fn pipeline_wiring_and_final_status() {
    // two stages in status mode: both piped, last status wins after a flush
    let p = ListableNode::Pipe(PipeCommands {
        commands: vec![
            PipeStage::Simple(SimpleCommand { words: words(&["printf", "foo"]) }),
            PipeStage::Simple(SimpleCommand { words: words(&["wc", "-c"]) }),
        ],
        bang: false,
    });
    let eng = Engine::new(vec![list_of(p, vec![])], Mode::Status);
    let (spawns, _, done) = drive(
        eng,
        vec![Event::Exited(5), Event::Exited(0), Event::Flushed],
    );
    assert_eq!(spawns.len(), 2);
    assert!(!spawns[0].stdin_from_pipe);
    assert!(spawns[0].stdout_to_pipe);
    assert!(spawns[1].stdin_from_pipe);
    assert!(spawns[1].stdout_to_pipe);
    assert!(matches!(done, Action::Done(st) if st.code == 0), "the final stage's status wins");
}

#[test]
fn redirect_plans_are_passed_to_the_driver() {
    // a write redirect followed by an independent read of the same path
    let write = ListableNode::Single(SingleCommand {
        command: SingleKind::Redirect(RedirectCommand {
            command: SimpleCommand { words: words(&["printf", "abc"]) },
            redirect: Redirect::Write(None, "out.txt".to_string()),
        }),
    });
    let read = ListableNode::Single(SingleCommand {
        command: SingleKind::Redirect(RedirectCommand {
            command: SimpleCommand { words: words(&["cat"]) },
            redirect: Redirect::Read(None, "out.txt".to_string()),
        }),
    });
    let eng = Engine::new(vec![list_of(write, vec![]), list_of(read, vec![])], Mode::Status);
    let (spawns, _, done) = drive(eng, vec![Event::Exited(0), Event::Exited(0)]);
    assert_eq!(spawns.len(), 2);
    let w = spawns[0].redirect.as_ref().unwrap();
    assert_eq!(w.mode, OpenMode::CreateTruncate);
    assert_eq!(w.slot, StreamSlot::Stdout);
    assert_eq!(w.path, "out.txt");
    let r = spawns[1].redirect.as_ref().unwrap();
    assert_eq!(r.mode, OpenMode::ReadExisting);
    assert_eq!(r.slot, StreamSlot::Stdin);
    assert_eq!(r.path, "out.txt");
    assert!(matches!(done, Action::Done(st) if st.code == 0));
}

#[test]
fn unsupported_redirect_is_rejected_not_run() {
    // descriptor duplication must be rejected with a reported error
    let node = ListableNode::Single(SingleCommand {
        command: SingleKind::Redirect(RedirectCommand {
            command: SimpleCommand { words: words(&["cmd"]) },
            redirect: Redirect::DupWrite(Some(2), "1".to_string()),
        }),
    });
    let eng = Engine::new(vec![list_of(node, vec![])], Mode::Status);
    let (spawns, eng, done) = drive(eng, vec![]);
    assert_eq!(spawns.len(), 0, "nothing may be spawned");
    assert!(eng.reports.contains(&ShellError::UnsupportedRedirect));
    assert!(matches!(done, Action::Done(st) if st.code == 1));
}

#[test]
fn bad_descriptor_is_rejected_not_run() {
    let node = ListableNode::Single(SingleCommand {
        command: SingleKind::Redirect(RedirectCommand {
            command: SimpleCommand { words: words(&["cmd"]) },
            redirect: Redirect::Write(Some(5), "f".to_string()),
        }),
    });
    let eng = Engine::new(vec![list_of(node, vec![])], Mode::Status);
    let (spawns, eng, done) = drive(eng, vec![]);
    assert_eq!(spawns.len(), 0);
    assert!(eng.reports.contains(&ShellError::BadDescriptor(5)));
    assert!(matches!(done, Action::Done(st) if st.code == 1));
}

#[test]
fn subshell_status_comes_from_the_child() {
    let sub = ListableNode::Single(SingleCommand {
        command: SingleKind::Subshell(SubshellCommand {
            commands: vec![plain_list(&["inner"])],
        }),
    });
    let eng = Engine::new(vec![list_of(sub, vec![])], Mode::Status);
    let (_, _, done) = drive(eng, vec![Event::SubshellExited(7)]);
    assert!(matches!(done, Action::Done(st) if st.code == 7));

    let sub = ListableNode::Single(SingleCommand {
        command: SingleKind::Subshell(SubshellCommand { commands: vec![] }),
    });
    let eng = Engine::new(vec![list_of(sub, vec![])], Mode::Status);
    let (_, _, done) = drive(eng, vec![Event::SubshellAbnormal]);
    assert!(matches!(done, Action::Done(st) if st.code == 1));
}

#[test]
fn builtin_dispatch_through_the_engine() {
    let b = |args: &[&str]| {
        ListableNode::Single(SingleCommand {
            command: SingleKind::Builtin(BuiltinCommand { args: words(args) }),
        })
    };

    // a well-formed cd is handed to the driver and succeeds
    let eng = Engine::new(vec![list_of(b(&["cd", "/tmp"]), vec![])], Mode::Status);
    let (_, _, done) = drive(eng, vec![Event::BuiltinDone]);
    assert!(matches!(done, Action::Done(st) if st.code == 0));

    // cd without a target is rejected before the driver sees it
    let eng = Engine::new(vec![list_of(b(&["cd"]), vec![])], Mode::Status);
    let (_, eng, done) = drive(eng, vec![]);
    assert!(eng.reports.contains(&ShellError::MissingArgument));
    assert!(matches!(done, Action::Done(st) if st.code == 1));

    // a non-numeric exit code is rejected
    let eng = Engine::new(vec![list_of(b(&["exit", "abc"]), vec![])], Mode::Status);
    let (_, eng, done) = drive(eng, vec![]);
    assert!(eng.reports.contains(&ShellError::BadExitCode));
    assert!(matches!(done, Action::Done(st) if st.code == 1));

    // the construction-error placeholder reports a malformed builtin
    let eng = Engine::new(vec![list_of(b(&[]), vec![])], Mode::Status);
    let (_, eng, done) = drive(eng, vec![]);
    assert!(eng.reports.contains(&ShellError::MalformedBuiltin));
    assert!(matches!(done, Action::Done(st) if st.code == 1));
}

#[test]
fn status_threads_across_lists() {
    let lists = vec![plain_list(&["a"]), plain_list(&["b"])];
    let eng = Engine::new(lists, Mode::Status);
    let (spawns, _, done) = drive(eng, vec![Event::Exited(3), Event::Exited(5)]);
    assert_eq!(spawns.len(), 2);
    assert_eq!(spawns[0].words, words(&["a"]));
    assert_eq!(spawns[1].words, words(&["b"]));
    assert!(matches!(done, Action::Done(st) if st.code == 5), "the last list's status wins");
}

#[test]
fn a_finished_engine_repeats_its_answer() {
    let mut eng = Engine::new(vec![plain_list(&["x"])], Mode::Status);
    assert!(matches!(eng.step(Event::Start), Action::Spawn(_)));
    assert!(matches!(eng.step(Event::Exited(2)), Action::Continue));
    assert!(matches!(eng.step(Event::Start), Action::Continue));
    assert!(matches!(eng.step(Event::Start), Action::Done(st) if st.code == 2));
    assert!(matches!(eng.step(Event::Start), Action::Done(st) if st.code == 2));
}

#[test]
fn an_event_that_does_not_fit_ends_the_run_failing() {
    let mut eng = Engine::new(vec![plain_list(&["x"])], Mode::Status);
    // the engine asked for nothing yet, so a stage event cannot fit
    assert!(matches!(eng.step(Event::Exited(0)), Action::Done(st) if st.code == 1));
}
