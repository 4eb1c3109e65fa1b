use arsh::command::ListableNode;
use arsh::command::PipeStage;
use arsh::command::Redirect;
use arsh::command::SingleKind;
use arsh::errors::ShellError;
use arsh::parser::build_program;
use arsh::parser::generate_command;
use arsh::parser::AstAndOr;
use arsh::parser::AstAndOrTail;
use arsh::parser::AstCommand;
use arsh::parser::AstItem;
use arsh::parser::AstListable;
use arsh::parser::AstPipeable;
use arsh::parser::AstRedirect;
use arsh::parser::AstRedirectKind;
use arsh::parser::AstSimple;
use arsh::command::Conjunction;
use arsh::redirect::plan_redirect;
use arsh::redirect::OpenMode;
use arsh::redirect::StreamSlot;
use arsh::words::WordNode;

fn word(s: &str) -> AstItem {
    AstItem::Word(WordNode::Literal(s.to_string()))
}

fn simple_ast(ws: &[&str]) -> AstPipeable {
    AstPipeable::Simple(AstSimple { items: ws.iter().map(|w| word(w)).collect() })
}

fn single_cmd(p: AstPipeable) -> AstCommand {
    AstCommand::List(AstAndOr { first: AstListable::Single(p), rest: vec![] })
}

#[test]
fn a_plain_command_builds_a_simple_node() {
    let mut reports = vec![];
    let out = generate_command(single_cmd(simple_ast(&["echo", "hi"])), &mut reports).unwrap();
    match out.first {
        ListableNode::Single(sc) => match sc.command {
            SingleKind::Simple(c) => assert_eq!(c.words, vec!["echo", "hi"]),
            _ => panic!("expected a plain command"),
        },
        _ => panic!("expected a single command"),
    }
    assert!(out.rest.is_empty());
    assert!(reports.is_empty());
}

#[test]
fn a_builtin_name_builds_a_builtin_node() {
    let mut reports = vec![];
    let out = generate_command(single_cmd(simple_ast(&["cd", "/tmp"])), &mut reports).unwrap();
    match out.first {
        ListableNode::Single(sc) => match sc.command {
            SingleKind::Builtin(b) => assert_eq!(b.args, vec!["cd", "/tmp"]),
            _ => panic!("expected a builtin"),
        },
        _ => panic!("expected a single command"),
    }
}

#[test]
fn one_redirect_builds_a_redirected_node() {
    let mut reports = vec![];
    let items = vec![
        word("cat"),
        AstItem::Redirect(AstRedirect {
            kind: AstRedirectKind::Write,
            fd: None,
            target: WordNode::Literal("out.txt".to_string()),
        }),
    ];
    let cmd = single_cmd(AstPipeable::Simple(AstSimple { items }));
    let out = generate_command(cmd, &mut reports).unwrap();
    match out.first {
        ListableNode::Single(sc) => match sc.command {
            SingleKind::Redirect(rc) => {
                assert_eq!(rc.command.words, vec!["cat"]);
                assert_eq!(rc.redirect, Redirect::Write(None, "out.txt".to_string()));
            },
            _ => panic!("expected a redirected command"),
        },
        _ => panic!("expected a single command"),
    }
    assert!(reports.is_empty());
}

#[test]
fn several_redirects_are_an_explicit_error() {
    let mut reports = vec![];
    let mk_redir = |path: &str| {
        AstItem::Redirect(AstRedirect {
            kind: AstRedirectKind::Write,
            fd: None,
            target: WordNode::Literal(path.to_string()),
        })
    };
    let items = vec![word("cat"), mk_redir("a"), mk_redir("b")];
    let cmd = single_cmd(AstPipeable::Simple(AstSimple { items }));
    let out = generate_command(cmd, &mut reports).unwrap();
    assert!(reports.contains(&ShellError::TooManyRedirects));
    match out.first {
        ListableNode::Single(sc) => match sc.command {
            SingleKind::Builtin(b) => assert!(b.args.is_empty(), "the placeholder failing node"),
            _ => panic!("expected the placeholder"),
        },
        _ => panic!("expected a single command"),
    }
}

#[test]
fn an_unsupported_word_is_reported_and_empty() {
    let mut reports = vec![];
    let items = vec![word("echo"), AstItem::Word(WordNode::DoubleQuoted)];
    let cmd = single_cmd(AstPipeable::Simple(AstSimple { items }));
    let out = generate_command(cmd, &mut reports).unwrap();
    assert!(reports.contains(&ShellError::UnsupportedWord));
    match out.first {
        ListableNode::Single(sc) => match sc.command {
            SingleKind::Simple(c) => assert_eq!(c.words, vec!["echo", ""]),
            _ => panic!("expected a plain command"),
        },
        _ => panic!("expected a single command"),
    }
}

#[test]
fn a_pipeline_keeps_its_stages_and_flag() {
    let mut reports = vec![];
    let cmd = AstCommand::List(AstAndOr {
        first: AstListable::Pipe(true, vec![simple_ast(&["printf", "foo"]), simple_ast(&["wc", "-c"])]),
        rest: vec![],
    });
    let out = generate_command(cmd, &mut reports).unwrap();
    match out.first {
        ListableNode::Pipe(pc) => {
            assert!(pc.bang);
            assert_eq!(pc.commands.len(), 2);
            match &pc.commands[0] {
                PipeStage::Simple(c) => assert_eq!(c.words, vec!["printf", "foo"]),
                _ => panic!("expected a plain stage"),
            }
            match &pc.commands[1] {
                PipeStage::Simple(c) => assert_eq!(c.words, vec!["wc", "-c"]),
                _ => panic!("expected a plain stage"),
            }
        },
        _ => panic!("expected a pipeline"),
    }
}

#[test]
fn and_or_continuations_keep_their_connectives() {
    let mut reports = vec![];
    let cmd = AstCommand::List(AstAndOr {
        first: AstListable::Single(simple_ast(&["false"])),
        rest: vec![
            AstAndOrTail {
                conjunction: Conjunction::Or,
                command: AstListable::Single(simple_ast(&["true"])),
            },
            AstAndOrTail {
                conjunction: Conjunction::And,
                command: AstListable::Single(simple_ast(&["next"])),
            },
        ],
    });
    let out = generate_command(cmd, &mut reports).unwrap();
    assert_eq!(out.rest.len(), 2);
    assert_eq!(out.rest[0].conjunction, Conjunction::Or);
    assert_eq!(out.rest[1].conjunction, Conjunction::And);
}

#[test]
fn jobs_and_functions_are_rejected() {
    let mut reports = vec![];
    let job = AstCommand::Job(AstAndOr {
        first: AstListable::Single(simple_ast(&["sleep"])),
        rest: vec![],
    });
    assert!(matches!(generate_command(job, &mut reports), Err(ShellError::UnsupportedConstruct)));

    let fndef = single_cmd(AstPipeable::FunctionDef);
    assert!(matches!(generate_command(fndef, &mut reports), Err(ShellError::UnsupportedConstruct)));

    let compound = single_cmd(AstPipeable::OtherCompound);
    assert!(matches!(generate_command(compound, &mut reports), Err(ShellError::UnsupportedConstruct)));

    // a subshell inside a pipeline is rejected too
    let pipe = AstCommand::List(AstAndOr {
        first: AstListable::Pipe(false, vec![simple_ast(&["a"]), AstPipeable::Subshell(vec![])]),
        rest: vec![],
    });
    assert!(matches!(generate_command(pipe, &mut reports), Err(ShellError::UnsupportedConstruct)));
}

#[test]
fn a_subshell_builds_its_inner_commands() {
    let mut reports = vec![];
    let cmd = single_cmd(AstPipeable::Subshell(vec![
        single_cmd(simple_ast(&["a"])),
        single_cmd(simple_ast(&["b"])),
    ]));
    let out = generate_command(cmd, &mut reports).unwrap();
    match out.first {
        ListableNode::Single(sc) => match sc.command {
            SingleKind::Subshell(sub) => assert_eq!(sub.commands.len(), 2),
            _ => panic!("expected a subshell"),
        },
        _ => panic!("expected a single command"),
    }
    assert!(reports.is_empty());
}

#[test]
fn a_broken_subshell_becomes_the_placeholder() {
    let mut reports = vec![];
    let bad_inner = AstCommand::Job(AstAndOr {
        first: AstListable::Single(simple_ast(&["x"])),
        rest: vec![],
    });
    let cmd = single_cmd(AstPipeable::Subshell(vec![bad_inner]));
    let out = generate_command(cmd, &mut reports).unwrap();
    assert!(reports.contains(&ShellError::UnsupportedConstruct));
    match out.first {
        ListableNode::Single(sc) => match sc.command {
            SingleKind::Builtin(b) => assert!(b.args.is_empty()),
            _ => panic!("expected the placeholder"),
        },
        _ => panic!("expected a single command"),
    }
}

#[test]
fn build_program_aborts_on_the_first_unsupported_command() {
    let mut reports = vec![];
    let good = || single_cmd(simple_ast(&["ls"]));
    let out = build_program(vec![good(), good()], &mut reports).unwrap();
    assert_eq!(out.len(), 2);

    let bad = AstCommand::Job(AstAndOr {
        first: AstListable::Single(simple_ast(&["x"])),
        rest: vec![],
    });
    assert!(matches!(
        build_program(vec![good(), bad], &mut reports),
        Err(ShellError::UnsupportedConstruct)
    ));
}

#[test]
fn redirect_plans_cover_every_supported_shape() {
    let plan = |r: Redirect| plan_redirect(r);
    let p = plan(Redirect::Read(None, "f".into())).unwrap();
    assert_eq!((p.mode, p.slot), (OpenMode::ReadExisting, StreamSlot::Stdin));
    let p = plan(Redirect::Read(Some(0), "f".into())).unwrap();
    assert_eq!(p.slot, StreamSlot::Stdin);
    let p = plan(Redirect::Write(Some(2), "f".into())).unwrap();
    assert_eq!((p.mode, p.slot), (OpenMode::CreateTruncate, StreamSlot::Stderr));
    let p = plan(Redirect::Append(None, "f".into())).unwrap();
    assert_eq!((p.mode, p.slot), (OpenMode::CreateAppend, StreamSlot::Stdout));
    let p = plan(Redirect::ReadWrite(None, "f".into())).unwrap();
    assert_eq!((p.mode, p.slot), (OpenMode::CreateReadWrite, StreamSlot::Stdin));
    let p = plan(Redirect::ReadWrite(Some(1), "f".into())).unwrap();
    assert_eq!(p.slot, StreamSlot::Stdout);

    assert_eq!(plan(Redirect::Read(Some(1), "f".into())), Err(ShellError::BadDescriptor(1)));
    assert_eq!(plan(Redirect::Write(Some(3), "f".into())), Err(ShellError::BadDescriptor(3)));
    assert_eq!(plan(Redirect::Append(Some(0), "f".into())), Err(ShellError::BadDescriptor(0)));
    assert_eq!(plan(Redirect::ReadWrite(Some(9), "f".into())), Err(ShellError::BadDescriptor(9)));
    assert_eq!(
        plan(Redirect::DupRead(None, "f".into())),
        Err(ShellError::UnsupportedRedirect)
    );
    assert_eq!(
        plan(Redirect::DupWrite(Some(2), "1".into())),
        Err(ShellError::UnsupportedRedirect)
    );
    assert_eq!(plan(Redirect::Clobber(None, "f".into())), Err(ShellError::UnsupportedRedirect));
    assert_eq!(plan(Redirect::Heredoc(None, "f".into())), Err(ShellError::UnsupportedRedirect));
}
