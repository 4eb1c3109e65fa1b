use vstd::prelude::*;
use crate::builtins::build_builtin_command;
use crate::builtins::builtin_name_known;
use crate::command::AndOrCommand;
use crate::command::AndOrCommandList;
use crate::command::BuiltinCommand;
use crate::command::Conjunction;
use crate::command::ListableNode;
use crate::command::PipeCommands;
use crate::command::PipeStage;
use crate::command::Redirect;
use crate::command::RedirectCommand;
use crate::command::SimpleCommand;
use crate::command::SingleCommand;
use crate::command::SingleKind;
use crate::command::SubshellCommand;
use crate::command::reversed;
use crate::errors::ShellError;
use crate::words::WordNode;
use crate::words::word_text;
use crate::words::word_text_spec;

verus! {

/// The shape of one redirect as the external parser classified it.
#[derive(Clone, Copy, PartialEq, Eq, Structural, Debug)]
pub enum AstRedirectKind {
    Read,
    Write,
    Append,
    ReadWrite,
    DupRead,
    DupWrite,
    Clobber,
    Heredoc,
}

/// One redirect of the parse tree: its kind, the optional explicit
/// descriptor, and the word naming the target file.
#[derive(Clone, PartialEq, Eq, Debug)]
pub struct AstRedirect {
    pub kind: AstRedirectKind,
    pub fd: Option<u16>,
    pub target: WordNode,
}

/// One entry of a simple command in the parse tree: a word or a redirect,
/// in written order.
#[derive(Clone, PartialEq, Eq, Debug)]
pub enum AstItem {
    Word(WordNode),
    Redirect(AstRedirect),
}

/// A simple command of the parse tree.
#[derive(Clone, PartialEq, Eq, Debug)]
pub struct AstSimple {
    pub items: Vec<AstItem>,
}

/// One launchable unit of the parse tree.  Compound commands other than
/// subshells, and function definitions, are recognised only to be
/// rejected.
#[derive(Debug)]
pub enum AstPipeable {
    Simple(AstSimple),
    Subshell(Vec<AstCommand>),
    OtherCompound,
    FunctionDef,
}

/// A single command or a pipeline of the parse tree, with the negation
/// flag.
#[derive(Debug)]
pub enum AstListable {
    Single(AstPipeable),
    Pipe(bool, Vec<AstPipeable>),
}

/// One `&&`, `||` or `;` continuation in the parse tree.
#[derive(Debug)]
pub struct AstAndOrTail {
    pub conjunction: Conjunction,
    pub command: AstListable,
}

/// An and-or list of the parse tree.
#[derive(Debug)]
pub struct AstAndOr {
    pub first: AstListable,
    pub rest: Vec<AstAndOrTail>,
}

/// One top-level command of the parse tree.  Job-control commands are
/// recognised only to be rejected.
#[derive(Debug)]
pub enum AstCommand {
    List(AstAndOr),
    Job(AstAndOr),
}

/// The text one word contributes to an argument list: its literal text,
/// or empty for the unsupported forms (which are reported).
pub open spec fn word_string(w: WordNode) -> Seq<char> {
    match word_text_spec(w) {
        Ok(t) => t@,
        Err(_) => Seq::empty(),
    }
}

/// The argument texts of a simple command's entries, in order.
pub open spec fn ast_words(items: Seq<AstItem>) -> Seq<Seq<char>>
    decreases items.len(),
{
    if items.len() == 0 {
        Seq::empty()
    } else {
        let rest = ast_words(items.drop_last());
        match items.last() {
            AstItem::Word(w) => rest.push(word_string(w)),
            AstItem::Redirect(_) => rest,
        }
    }
}

/// The redirects of a simple command's entries, in order.
pub open spec fn ast_redirects(items: Seq<AstItem>) -> Seq<AstRedirect>
    decreases items.len(),
{
    if items.len() == 0 {
        Seq::empty()
    } else {
        let rest = ast_redirects(items.drop_last());
        match items.last() {
            AstItem::Word(_) => rest,
            AstItem::Redirect(r) => rest.push(r),
        }
    }
}

/// Whether a built redirect renders one parsed redirect: same kind, same
/// descriptor, and the target word's text as path.
pub open spec fn redirect_matches(out: Redirect, r: AstRedirect) -> bool {
    match r.kind {
        AstRedirectKind::Read => out matches Redirect::Read(fd, p) && fd == r.fd && p@
            == word_string(r.target),
        AstRedirectKind::Write => out matches Redirect::Write(fd, p) && fd == r.fd && p@
            == word_string(r.target),
        AstRedirectKind::Append => out matches Redirect::Append(fd, p) && fd == r.fd && p@
            == word_string(r.target),
        AstRedirectKind::ReadWrite => out matches Redirect::ReadWrite(fd, p) && fd == r.fd && p@
            == word_string(r.target),
        AstRedirectKind::DupRead => out matches Redirect::DupRead(fd, p) && fd == r.fd && p@
            == word_string(r.target),
        AstRedirectKind::DupWrite => out matches Redirect::DupWrite(fd, p) && fd == r.fd && p@
            == word_string(r.target),
        AstRedirectKind::Clobber => out matches Redirect::Clobber(fd, p) && fd == r.fd && p@
            == word_string(r.target),
        AstRedirectKind::Heredoc => out matches Redirect::Heredoc(fd, p) && fd == r.fd && p@
            == word_string(r.target),
    }
}

/// Whether a built launch specification carries exactly these argument
/// texts.
pub open spec fn words_match(sc: SimpleCommand, ws: Seq<Seq<char>>) -> bool {
    &&& sc.words@.len() == ws.len()
    &&& forall|i: int| 0 <= i < ws.len() ==> #[trigger] sc.words@[i]@ == ws[i]
}

/// Whether a built node is the placeholder for a construction error: a
/// builtin with no operation name, which reports a failure when run.
pub open spec fn is_placeholder(k: SingleKind) -> bool {
    k matches SingleKind::Builtin(b) && b.args@.len() == 0
}

/// Whether a parse-tree unit is a simple command, the only stage shape
/// a pipeline accepts.
pub open spec fn is_simple_stage(p: AstPipeable) -> bool {
    p matches AstPipeable::Simple(_)
}

/// Whether every stage of a parsed pipeline is a simple command.
pub open spec fn stages_all_simple(ss: Seq<AstPipeable>) -> bool
    decreases ss.len(),
{
    if ss.len() == 0 {
        true
    } else {
        stages_all_simple(ss.drop_last()) && is_simple_stage(ss.last())
    }
}

/// Which parse-tree commands the engine accepts at all: everything but
/// job-control commands, compound commands other than subshells, and
/// function definitions.  A subshell is accepted even when its inner
/// commands are not: those become a reported error and a placeholder.
pub open spec fn command_supported(c: AstCommand) -> bool
    decreases c,
{
    match c {
        AstCommand::Job(_) => false,
        AstCommand::List(a) => listable_supported(a.first) && tails_supported(a.rest@),
    }
}

/// See `command_supported`.
pub open spec fn tails_supported(ts: Seq<AstAndOrTail>) -> bool
    decreases ts.len(),
{
    if ts.len() == 0 {
        true
    } else {
        tails_supported(ts.drop_last()) && listable_supported(ts.last().command)
    }
}

/// See `command_supported`.
pub open spec fn listable_supported(l: AstListable) -> bool
    decreases l,
{
    match l {
        AstListable::Single(p) => match p {
            AstPipeable::Simple(_) => true,
            AstPipeable::Subshell(_) => true,
            AstPipeable::OtherCompound => false,
            AstPipeable::FunctionDef => false,
        },
        AstListable::Pipe(_, stages) => stages_all_simple(stages@),
    }
}

/// The and-or list inside a top-level command.
pub open spec fn and_or_of(c: AstCommand) -> AstAndOr {
    match c {
        AstCommand::List(a) => a,
        AstCommand::Job(a) => a,
    }
}

/// Whether a built pipeline stage renders one parsed stage: exactly one
/// redirect makes a redirected stage, none a plain stage, and several
/// are rejected into an empty placeholder stage that fails when run.
pub open spec fn stage_matches(st: PipeStage, p: AstPipeable) -> bool {
    p matches AstPipeable::Simple(s) && ({
        let ws = ast_words(s.items@);
        let rs = ast_redirects(s.items@);
        if rs.len() == 1 {
            st matches PipeStage::Redirect(rc) && words_match(rc.command, ws) && redirect_matches(
                rc.redirect,
                rs[0],
            )
        } else if rs.len() == 0 {
            st matches PipeStage::Simple(sc) && words_match(sc, ws)
        } else {
            st matches PipeStage::Simple(sc) && sc.words@.len() == 0
        }
    })
}

/// Whether a built stage sequence renders a parsed one, stage by stage.
pub open spec fn stages_match(sts: Seq<PipeStage>, ps: Seq<AstPipeable>) -> bool
    decreases ps.len(),
{
    if sts.len() != ps.len() {
        false
    } else if ps.len() == 0 {
        true
    } else {
        stages_match(sts.drop_last(), ps.drop_last()) && stage_matches(sts.last(), ps.last())
    }
}

/// Whether a built single command renders one parsed launchable unit.
/// A lone simple command with no redirect whose first word is a builtin
/// name becomes a builtin node; a subshell's inner commands are built
/// recursively, or replaced by the placeholder when any is unsupported.
pub open spec fn single_matches(k: SingleKind, p: AstPipeable) -> bool
    decreases p,
{
    match p {
        AstPipeable::Simple(s) => {
            let ws = ast_words(s.items@);
            let rs = ast_redirects(s.items@);
            if rs.len() == 1 {
                k matches SingleKind::Redirect(rc) && words_match(rc.command, ws)
                    && redirect_matches(rc.redirect, rs[0])
            } else if rs.len() == 0 {
                if ws.len() > 0 && builtin_name_known(ws[0]) {
                    k matches SingleKind::Builtin(b) && words_match(
                        SimpleCommand { words: b.args },
                        ws,
                    )
                } else {
                    k matches SingleKind::Simple(sc) && words_match(sc, ws)
                }
            } else {
                is_placeholder(k)
            }
        },
        AstPipeable::Subshell(cs) => {
            if commands_supported(cs@) {
                k matches SingleKind::Subshell(sub) && lists_match(sub.commands@, cs@)
            } else {
                is_placeholder(k)
            }
        },
        AstPipeable::OtherCompound => false,
        AstPipeable::FunctionDef => false,
    }
}

/// Whether every command of a parsed forest is supported.
pub open spec fn commands_supported(cs: Seq<AstCommand>) -> bool
    decreases cs.len(),
{
    if cs.len() == 0 {
        true
    } else {
        commands_supported(cs.drop_last()) && command_supported(cs.last())
    }
}

/// Whether a built forest renders a parsed one, command by command.
pub open spec fn lists_match(outs: Seq<AndOrCommandList>, cs: Seq<AstCommand>) -> bool
    decreases cs,
{
    if outs.len() != cs.len() {
        false
    } else if cs.len() == 0 {
        true
    } else {
        lists_match(outs.drop_last(), cs.drop_last()) && list_matches(
            outs.last(),
            and_or_of(cs.last()),
        )
    }
}

/// Whether a built single command or pipeline renders one parsed one.
pub open spec fn listable_matches(n: ListableNode, l: AstListable) -> bool
    decreases l,
{
    match l {
        AstListable::Single(p) => n matches ListableNode::Single(sc) && single_matches(
            sc.command,
            p,
        ),
        AstListable::Pipe(bang, stages) => n matches ListableNode::Pipe(pc) && pc.bang == bang
            && stages_match(pc.commands@, stages@),
    }
}

/// Whether built continuations render parsed ones, entry by entry, with
/// their connectives.
pub open spec fn tails_match(outs: Seq<AndOrCommand>, ts: Seq<AstAndOrTail>) -> bool
    decreases ts,
{
    if outs.len() != ts.len() {
        false
    } else if ts.len() == 0 {
        true
    } else {
        tails_match(outs.drop_last(), ts.drop_last()) && outs.last().conjunction
            == ts.last().conjunction && listable_matches(outs.last().command, ts.last().command)
    }
}

/// Whether a built and-or list renders one parsed and-or list: the same
/// first command, and the same continuations with their connectives.
pub open spec fn list_matches(out: AndOrCommandList, a: AstAndOr) -> bool
    decreases a,
{
    &&& listable_matches(out.first, a.first)
    &&& tails_match(out.rest@, a.rest@)
}

/// A member of an all-simple stage sequence is a simple command.
proof fn lemma_stages_all_simple_index(ss: Seq<AstPipeable>, i: int)
    requires
        stages_all_simple(ss),
        0 <= i < ss.len(),
    ensures
        is_simple_stage(ss[i]),
    decreases ss.len(),
{
    if i + 1 < ss.len() {
        assert(ss.drop_last()[i] == ss[i]);
        lemma_stages_all_simple_index(ss.drop_last(), i);
    }
}

/// A member of an all-supported continuation sequence is supported.
proof fn lemma_tails_supported_index(ts: Seq<AstAndOrTail>, i: int)
    requires
        tails_supported(ts),
        0 <= i < ts.len(),
    ensures
        listable_supported(ts[i].command),
    decreases ts.len(),
{
    if i + 1 < ts.len() {
        assert(ts.drop_last()[i] == ts[i]);
        lemma_tails_supported_index(ts.drop_last(), i);
    }
}

/// A member of an all-supported command sequence is supported.
proof fn lemma_commands_supported_index(cs: Seq<AstCommand>, i: int)
    requires
        commands_supported(cs),
        0 <= i < cs.len(),
    ensures
        command_supported(cs[i]),
    decreases cs.len(),
{
    if i + 1 < cs.len() {
        assert(cs.drop_last()[i] == cs[i]);
        lemma_commands_supported_index(cs.drop_last(), i);
    }
}

/// Split a simple command's entries into argument texts and redirects,
/// reporting each unsupported word and contributing its empty text, as
/// `ast_words` and `ast_redirects` describe.
fn build_words(items: Vec<AstItem>, reports: &mut Vec<ShellError>) -> (r: (
    Vec<String>,
    Vec<AstRedirect>,
))
    ensures
        words_match(SimpleCommand { words: r.0 }, ast_words(items@)),
        r.1@ == ast_redirects(items@),
        old(reports)@.is_prefix_of(final(reports)@),
{
    let mut words: Vec<String> = Vec::new();
    let mut redirs: Vec<AstRedirect> = Vec::new();
    let mut src = reversed(items);
    let ghost all = items@;
    while src.len() > 0
        invariant
            src@ == all.reverse().take(src@.len() as int),
            src@.len() <= all.len(),
            words_match(SimpleCommand { words }, ast_words(all.take(all.len() - src@.len()))),
            redirs@ == ast_redirects(all.take(all.len() - src@.len())),
            old(reports)@.is_prefix_of(reports@),
        decreases src@.len(),
    {
        let ghost done = all.len() - src@.len();
        let item_opt = src.pop();
        proof {
            assert(all.reverse().take(src@.len() as int + 1).drop_last() =~= all.reverse().take(
                src@.len() as int,
            ));
            assert(all.take(done + 1).drop_last() =~= all.take(done));
            assert(all.reverse()[all.len() - 1 - done] == all[done]);
        }
        match item_opt {
            Some(AstItem::Word(w)) => {
                match word_text(w) {
                    Ok(t) => {
                        words.push(t);
                    },
                    Err(e) => {
                        reports.push(e);
                        words.push(String::new());
                    },
                }
            },
            Some(AstItem::Redirect(r)) => {
                redirs.push(r);
            },
            None => {},
        }
    }
    proof {
        assert(all.take(all.len() as int) =~= all);
    }
    (words, redirs)
}

/// Build one redirect, reporting an unsupported target word and using
/// the empty path in its place.
fn build_redirect(r: AstRedirect, reports: &mut Vec<ShellError>) -> (out: Redirect)
    ensures
        redirect_matches(out, r),
        old(reports)@.is_prefix_of(final(reports)@),
{
    let path = match word_text(r.target) {
        Ok(t) => t,
        Err(e) => {
            reports.push(e);
            String::new()
        },
    };
    match r.kind {
        AstRedirectKind::Read => Redirect::Read(r.fd, path),
        AstRedirectKind::Write => Redirect::Write(r.fd, path),
        AstRedirectKind::Append => Redirect::Append(r.fd, path),
        AstRedirectKind::ReadWrite => Redirect::ReadWrite(r.fd, path),
        AstRedirectKind::DupRead => Redirect::DupRead(r.fd, path),
        AstRedirectKind::DupWrite => Redirect::DupWrite(r.fd, path),
        AstRedirectKind::Clobber => Redirect::Clobber(r.fd, path),
        AstRedirectKind::Heredoc => Redirect::Heredoc(r.fd, path),
    }
}

/// Build one pipeline stage from a parsed launchable unit, as
/// `stage_matches` describes; anything but a simple command inside a
/// pipeline is rejected.
fn build_stage(p: AstPipeable, reports: &mut Vec<ShellError>) -> (r: Result<PipeStage, ShellError>)
    ensures
        r matches Ok(st) ==> stage_matches(st, p),
        r is Ok <==> is_simple_stage(p),
        r matches Err(e) ==> e == ShellError::UnsupportedConstruct,
        old(reports)@.is_prefix_of(final(reports)@),
{
    match p {
        AstPipeable::Simple(s) => {
            let (words, mut redirs) = build_words(s.items, reports);
            if redirs.len() == 1 {
                let rd = redirs.pop();
                match rd {
                    Some(rd) => {
                        let redirect = build_redirect(rd, reports);
                        Ok(
                            PipeStage::Redirect(
                                RedirectCommand { command: SimpleCommand { words }, redirect },
                            ),
                        )
                    },
                    None => Err(ShellError::UnsupportedConstruct),
                }
            } else if redirs.len() == 0 {
                Ok(PipeStage::Simple(SimpleCommand { words }))
            } else {
                reports.push(ShellError::TooManyRedirects);
                Ok(PipeStage::Simple(SimpleCommand { words: Vec::new() }))
            }
        },
        AstPipeable::Subshell(_) => Err(ShellError::UnsupportedConstruct),
        AstPipeable::OtherCompound => Err(ShellError::UnsupportedConstruct),
        AstPipeable::FunctionDef => Err(ShellError::UnsupportedConstruct),
    }
}

/// Build one single command, as `single_matches` describes: redirects
/// and builtin names are classified here, and a subshell whose inner
/// commands cannot be built becomes a reported error and a placeholder.
fn build_single(p: AstPipeable, reports: &mut Vec<ShellError>) -> (r: Result<
    SingleKind,
    ShellError,
>)
    ensures
        r matches Ok(k) ==> single_matches(k, p),
        r is Ok <==> (p matches AstPipeable::Simple(_) || p matches AstPipeable::Subshell(_)),
        r matches Err(e) ==> e == ShellError::UnsupportedConstruct,
        old(reports)@.is_prefix_of(final(reports)@),
    decreases p,
{
    let ghost p0 = p;
    match p {
        AstPipeable::Simple(s) => {
            let (words, mut redirs) = build_words(s.items, reports);
            if redirs.len() == 1 {
                let rd = redirs.pop();
                match rd {
                    Some(rd) => {
                        let redirect = build_redirect(rd, reports);
                        Ok(
                            SingleKind::Redirect(
                                RedirectCommand { command: SimpleCommand { words }, redirect },
                            ),
                        )
                    },
                    None => Err(ShellError::UnsupportedConstruct),
                }
            } else if redirs.len() == 0 {
                match build_builtin_command(&words) {
                    Some(b) => Ok(SingleKind::Builtin(b)),
                    None => Ok(SingleKind::Simple(SimpleCommand { words })),
                }
            } else {
                reports.push(ShellError::TooManyRedirects);
                Ok(SingleKind::Builtin(BuiltinCommand { args: Vec::new() }))
            }
        },
        AstPipeable::Subshell(cs) => {
            let ghost all = cs@;
            let mut src = reversed(cs);
            let mut built: Vec<AndOrCommandList> = Vec::new();
            let mut failed: Option<ShellError> = None;
            while src.len() > 0
                invariant
                    p0 == p,
                    p0 matches AstPipeable::Subshell(cs1) && cs1@ == all,
                    src@ == all.reverse().take(src@.len() as int),
                    src@.len() <= all.len(),
                    old(reports)@.is_prefix_of(reports@),
                    failed is None ==> commands_supported(all.take(all.len() - src@.len()))
                        && lists_match(built@, all.take(all.len() - src@.len())),
                    failed is Some ==> !commands_supported(all),
                decreases src@.len(),
            {
                let ghost done = all.len() - src@.len();
                let cmd_opt = src.pop();
                proof {
                    assert(all.reverse().take(src@.len() as int + 1).drop_last() =~= all.reverse()
                        .take(src@.len() as int));
                    assert(all.take(done + 1).drop_last() =~= all.take(done));
                    assert(all.reverse()[all.len() - 1 - done] == all[done]);
                }
                match cmd_opt {
                    Some(cmd) => {
                        proof {
                            assert(cmd == all[done]);
                            assert(decreases_to!(all => cmd));
                            assert(decreases_to!(p0 => cmd));
                            assert(decreases_to!(p => cmd));
                        }
                        if failed.is_none() {
                            match generate_command(cmd, reports) {
                                Ok(out) => {
                                    let ghost prev = built@;
                                    built.push(out);
                                    proof {
                                        assert(built@.drop_last() =~= prev);
                                        assert(all.take(done + 1).last() == all[done]);
                                    }
                                },
                                Err(e) => {
                                    proof {
                                        if commands_supported(all) {
                                            lemma_commands_supported_index(all, done);
                                        }
                                    }
                                    failed = Some(e);
                                },
                            }
                        }
                    },
                    None => {},
                }
            }
            proof {
                assert(all.take(all.len() as int) =~= all);
            }
            match failed {
                Some(e) => {
                    reports.push(e);
                    Ok(SingleKind::Builtin(BuiltinCommand { args: Vec::new() }))
                },
                None => Ok(SingleKind::Subshell(SubshellCommand { commands: built })),
            }
        },
        AstPipeable::OtherCompound => Err(ShellError::UnsupportedConstruct),
        AstPipeable::FunctionDef => Err(ShellError::UnsupportedConstruct),
    }
}

/// Build one single command or pipeline, as `listable_matches` describes.
fn build_listable(l: AstListable, reports: &mut Vec<ShellError>) -> (r: Result<
    ListableNode,
    ShellError,
>)
    ensures
        r matches Ok(n) ==> listable_matches(n, l),
        r is Ok <==> listable_supported(l),
        r matches Err(e) ==> e == ShellError::UnsupportedConstruct,
        old(reports)@.is_prefix_of(final(reports)@),
    decreases l,
{
    match l {
        AstListable::Single(p) => {
            match build_single(p, reports) {
                Ok(k) => Ok(ListableNode::Single(SingleCommand { command: k })),
                Err(e) => Err(e),
            }
        },
        AstListable::Pipe(bang, stages) => {
            let ghost all = stages@;
            let mut src = reversed(stages);
            let mut built: Vec<PipeStage> = Vec::new();
            let mut failed = false;
            while src.len() > 0
                invariant
                    src@ == all.reverse().take(src@.len() as int),
                    src@.len() <= all.len(),
                    old(reports)@.is_prefix_of(reports@),
                    !failed ==> stages_all_simple(all.take(all.len() - src@.len()))
                        && stages_match(built@, all.take(all.len() - src@.len())),
                    failed ==> !stages_all_simple(all),
                decreases src@.len(),
            {
                let ghost done = all.len() - src@.len();
                let stage_opt = src.pop();
                proof {
                    assert(all.reverse().take(src@.len() as int + 1).drop_last() =~= all.reverse()
                        .take(src@.len() as int));
                    assert(all.take(done + 1).drop_last() =~= all.take(done));
                    assert(all.reverse()[all.len() - 1 - done] == all[done]);
                }
                match stage_opt {
                    Some(stage) => {
                        if !failed {
                            match build_stage(stage, reports) {
                                Ok(st) => {
                                    let ghost prev = built@;
                                    built.push(st);
                                    proof {
                                        assert(built@.drop_last() =~= prev);
                                        assert(all.take(done + 1).last() == all[done]);
                                    }
                                },
                                Err(_) => {
                                    proof {
                                        if stages_all_simple(all) {
                                            lemma_stages_all_simple_index(all, done);
                                        }
                                    }
                                    failed = true;
                                },
                            }
                        }
                    },
                    None => {},
                }
            }
            proof {
                assert(all.take(all.len() as int) =~= all);
            }
            if failed {
                Err(ShellError::UnsupportedConstruct)
            } else {
                Ok(ListableNode::Pipe(PipeCommands { commands: built, bang }))
            }
        },
    }
}

/// Build one top-level command into an and-or list, as `list_matches`
/// describes: job-control commands and any other unsupported construct
/// are rejected with the reported error.
pub fn generate_command(c: AstCommand, reports: &mut Vec<ShellError>) -> (r: Result<
    AndOrCommandList,
    ShellError,
>)
    ensures
        r matches Ok(out) ==> command_supported(c) && list_matches(out, and_or_of(c)),
        r is Ok <==> command_supported(c),
        r matches Err(e) ==> e == ShellError::UnsupportedConstruct,
        old(reports)@.is_prefix_of(final(reports)@),
    decreases c,
{
    let ghost c0 = c;
    match c {
        AstCommand::Job(_) => Err(ShellError::UnsupportedConstruct),
        AstCommand::List(a) => {
            let first = match build_listable(a.first, reports) {
                Ok(n) => n,
                Err(e) => {
                    return Err(e);
                },
            };
            let ghost all = a.rest@;
            let mut src = reversed(a.rest);
            let mut built: Vec<AndOrCommand> = Vec::new();
            let mut failed = false;
            while src.len() > 0
                invariant
                    c0 == c,
                    c0 matches AstCommand::List(a1) && a1.rest@ == all && listable_matches(
                        first,
                        a1.first,
                    ) && listable_supported(a1.first),
                    src@ == all.reverse().take(src@.len() as int),
                    src@.len() <= all.len(),
                    old(reports)@.is_prefix_of(reports@),
                    !failed ==> tails_supported(all.take(all.len() - src@.len())) && tails_match(
                        built@,
                        all.take(all.len() - src@.len()),
                    ),
                    failed ==> !tails_supported(all),
                decreases src@.len(),
            {
                let ghost done = all.len() - src@.len();
                let tail_opt = src.pop();
                proof {
                    assert(all.reverse().take(src@.len() as int + 1).drop_last() =~= all.reverse()
                        .take(src@.len() as int));
                    assert(all.take(done + 1).drop_last() =~= all.take(done));
                    assert(all.reverse()[all.len() - 1 - done] == all[done]);
                }
                match tail_opt {
                    Some(tail) => {
                        proof {
                            assert(tail == all[done]);
                            assert(decreases_to!(all => tail));
                            assert(decreases_to!(c0 => tail.command));
                            assert(decreases_to!(c => tail.command));
                        }
                        if !failed {
                            match build_listable(tail.command, reports) {
                                Ok(n) => {
                                    let ghost prev = built@;
                                    built.push(
                                        AndOrCommand { command: n, conjunction: tail.conjunction },
                                    );
                                    proof {
                                        assert(built@.drop_last() =~= prev);
                                        assert(all.take(done + 1).last() == all[done]);
                                    }
                                },
                                Err(_) => {
                                    proof {
                                        if tails_supported(all) {
                                            lemma_tails_supported_index(all, done);
                                        }
                                    }
                                    failed = true;
                                },
                            }
                        }
                    },
                    None => {},
                }
            }
            proof {
                assert(all.take(all.len() as int) =~= all);
            }
            if failed {
                Err(ShellError::UnsupportedConstruct)
            } else {
                Ok(AndOrCommandList { first, rest: built })
            }
        },
    }
}

/// Build a whole forest of top-level commands; the first unsupported
/// construct abandons the forest, as the reported error.
pub fn build_program(cs: Vec<AstCommand>, reports: &mut Vec<ShellError>) -> (r: Result<
    Vec<AndOrCommandList>,
    ShellError,
>)
    ensures
        r is Ok <==> commands_supported(cs@),
        r matches Ok(out) ==> lists_match(out@, cs@),
        r matches Err(e) ==> e == ShellError::UnsupportedConstruct,
        old(reports)@.is_prefix_of(final(reports)@),
{
    let ghost all = cs@;
    let mut src = reversed(cs);
    let mut built: Vec<AndOrCommandList> = Vec::new();
    let mut failed = false;
    while src.len() > 0
        invariant
            src@ == all.reverse().take(src@.len() as int),
            src@.len() <= all.len(),
            old(reports)@.is_prefix_of(reports@),
            !failed ==> commands_supported(all.take(all.len() - src@.len())) && lists_match(
                built@,
                all.take(all.len() - src@.len()),
            ),
            failed ==> !commands_supported(all),
        decreases src@.len(),
    {
        let ghost done = all.len() - src@.len();
        let cmd_opt = src.pop();
        proof {
            assert(all.reverse().take(src@.len() as int + 1).drop_last() =~= all.reverse().take(
                src@.len() as int,
            ));
            assert(all.take(done + 1).drop_last() =~= all.take(done));
            assert(all.reverse()[all.len() - 1 - done] == all[done]);
        }
        match cmd_opt {
            Some(cmd) => {
                if !failed {
                    match generate_command(cmd, reports) {
                        Ok(out) => {
                            let ghost prev = built@;
                            built.push(out);
                            proof {
                                assert(built@.drop_last() =~= prev);
                                assert(all.take(done + 1).last() == all[done]);
                            }
                        },
                        Err(_) => {
                            proof {
                                if commands_supported(all) {
                                    lemma_commands_supported_index(all, done);
                                }
                            }
                            failed = true;
                        },
                    }
                }
            },
            None => {},
        }
    }
    proof {
        assert(all.take(all.len() as int) =~= all);
    }
    if failed {
        Err(ShellError::UnsupportedConstruct)
    } else {
        Ok(built)
    }
}

} // verus!
