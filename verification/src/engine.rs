use vstd::prelude::*;
use vstd::string::StrSliceExecFns;
use vstd::string::StringExecFns;
use crate::builtins::BuiltinAction;
use crate::builtins::builtin_dispatch_ok;
use crate::builtins::dispatch_builtin;
use crate::command::AndOrCommand;
use crate::command::AndOrCommandList;
use crate::command::Conjunction;
use crate::command::ListableNode;
use crate::command::PipeStage;
use crate::command::reversed;
use crate::command::SingleKind;
use crate::command::SubshellCommand;
use crate::errors::ShellError;
use crate::redirect::RedirectPlan;
use crate::redirect::plan_redirect;
use crate::redirect::redirect_plan_spec;
use crate::status::ExecutionStatus;
use crate::status::apply_negation;
use crate::status::negated;
use crate::words::trim_str;
use crate::words::trimmed;

verus! {

/// What a run of the engine produces: a final status, or captured text
/// for command substitution.
#[derive(Clone, Copy, PartialEq, Eq, Structural, Debug)]
pub enum Mode {
    Status,
    Capture,
}

/// Where the engine stands between two steps.
#[derive(Clone, Copy, PartialEq, Eq, Structural, Debug)]
pub enum Ctl {
    /// Ready to begin the next and-or list, or to finish.
    StartList,
    /// Ready to decide the next continuation of the current list, or to
    /// close the list.
    NextItem,
    /// A stage spawn was requested; waiting for its exit.
    AwaitStage,
    /// Waiting for the residual pipe bytes to be forwarded to the
    /// shell's own output.
    AwaitFlush,
    /// Waiting for the captured text of the final stage.
    AwaitRead,
    /// Waiting for a builtin to run in the shell's own process.
    AwaitBuiltin,
    /// Waiting for a forked subshell to be reaped.
    AwaitSubshell,
    /// The run is over; the engine only repeats its final answer.
    Finished,
}

/// One process for the driver to spawn and wait on.  `stdin_from_pipe`
/// binds standard input to the readable end of the previous stage's
/// output pipe; `stdout_to_pipe` captures standard output into a fresh
/// pipe that the next request, a flush or a read will consume.  When a
/// redirect and pipe wiring name the same slot, the redirect wins: the
/// driver applies the redirect last.
#[derive(Clone, PartialEq, Eq, Debug)]
pub struct SpawnRequest {
    pub words: Vec<String>,
    pub stdin_from_pipe: bool,
    pub stdout_to_pipe: bool,
    pub redirect: Option<RedirectPlan>,
}

/// What the engine asks its driver to do next.  Every variant except
/// `Continue`, `Done` and `DoneText` performs outside work and is
/// answered with the matching `Event`; `Continue` is answered with
/// `Event::Start`.
#[derive(Debug)]
pub enum Action {
    /// Nothing outside to do; call `step` again with `Event::Start`.
    Continue,
    /// Spawn one stage and wait for it to terminate.
    Spawn(SpawnRequest),
    /// Perform one builtin operation in the calling process.
    RunBuiltin(BuiltinAction),
    /// Fork an isolated child, run this command list inside it with a
    /// fresh engine, exit the child with the final status code, and
    /// reap it in the parent.
    RunSubshell(SubshellCommand),
    /// Forward the residual bytes of the held pipe to the shell's own
    /// output.
    FlushPipe,
    /// Read the held pipe to its end and hand the text back.
    ReadPipe,
    /// The run is over with this status.
    Done(ExecutionStatus),
    /// The run is over with this captured text.
    DoneText(String),
}

/// What the outside world reports back to the engine.
#[derive(Clone, PartialEq, Eq, Debug)]
pub enum Event {
    /// No outside result to deliver: drive the next decision.
    Start,
    /// The spawned stage terminated with this exit code.
    Exited(i32),
    /// The stage could not be spawned, opened its redirect target, or
    /// be waited on; the driver has reported the details.
    StageFailed,
    /// The captured text of the final stage.
    PipeText(String),
    /// The held pipe could not be read.
    PipeReadFailed,
    /// The residual pipe bytes were forwarded.
    Flushed,
    /// The builtin ran and returned normally.
    BuiltinDone,
    /// The builtin reported an error.
    BuiltinFailed,
    /// The subshell child exited with this code.
    SubshellExited(i32),
    /// The subshell child terminated without a plain exit.
    SubshellAbnormal,
    /// The subshell could not be forked or reaped.
    SubshellFailed,
}

/// Whether a status-mode continuation joined by this connective runs,
/// given whether the status so far succeeded: `&&` runs on success,
/// `||` runs on failure, `;` always runs.
pub open spec fn conj_runs(prev_ok: bool, c: Conjunction) -> bool {
    match c {
        Conjunction::And => prev_ok,
        Conjunction::Or => !prev_ok,
        Conjunction::Sequence => true,
    }
}

/// The synthetic status a skipped continuation leaves behind: a skipped
/// `&&` entry fails, a skipped `||` entry succeeds.  A `;` entry is
/// never skipped.
pub open spec fn skip_status(c: Conjunction) -> ExecutionStatus {
    match c {
        Conjunction::And => ExecutionStatus { code: 1 },
        Conjunction::Or => ExecutionStatus { code: 0 },
        Conjunction::Sequence => ExecutionStatus { code: 0 },
    }
}

/// Whether a capture-mode continuation runs, given whether the text
/// accumulated so far is empty: `&&` appends only to non-empty text,
/// `||` only to empty text, `;` always runs.
pub open spec fn capture_runs(acc_empty: bool, c: Conjunction) -> bool {
    match c {
        Conjunction::And => !acc_empty,
        Conjunction::Or => acc_empty,
        Conjunction::Sequence => true,
    }
}

/// The command-tree execution engine, as an explicit state machine.
/// The engine owns every decision: which node runs next, how each
/// pipeline stage is wired, what each reported exit code means.  The
/// driver owns every effect: it performs the returned `Action` and
/// answers with the matching `Event`.  Lists and stages are held in
/// reverse, so that the next one to run is always the last element.
#[derive(Debug)]
pub struct Engine {
    pub mode: Mode,
    /// The top-level and-or lists still to run, reversed.
    pub pending: Vec<AndOrCommandList>,
    /// The status threaded across completed lists.
    pub status: ExecutionStatus,
    /// Capture mode: the trimmed text accumulated across completed lists.
    pub subst_acc: String,
    /// The continuations of the current list still to decide, reversed.
    pub rest: Vec<AndOrCommand>,
    /// Whether the entry being run is the current list's first.
    pub first_item: bool,
    /// The running status within the current list.
    pub acc_status: ExecutionStatus,
    /// Capture mode: the running text within the current list.
    pub acc_text: String,
    /// The remaining stages of the current pipeline, reversed.
    pub stages: Vec<PipeStage>,
    /// How many stages of the current pipeline were already spawned.
    pub started: usize,
    /// How many stages the current pipeline has in all.
    pub total: usize,
    /// The current pipeline's negation flag.
    pub bang: bool,
    /// The exit code of the most recently finished stage.
    pub last_code: i32,
    /// Diagnostics for the driver to render, in order of occurrence.
    pub reports: Vec<ShellError>,
    pub ctl: Ctl,
}

/// The engine's internal consistency: stage bookkeeping never outruns
/// the pipeline's size.
pub open spec fn engine_inv(e: Engine) -> bool {
    e.started + e.stages@.len() <= e.total
}

/// The fields an item's own progress never touches.
pub open spec fn lists_frame(pre: Engine, post: Engine) -> bool {
    &&& post.mode == pre.mode
    &&& post.status == pre.status
    &&& post.subst_acc@ == pre.subst_acc@
}

/// A finished item folded into the current list in status mode: the
/// item's status becomes the list's running status.
pub open spec fn item_folded_status(pre: Engine, post: Engine, st: ExecutionStatus) -> bool {
    &&& lists_frame(pre, post)
    &&& post.ctl is NextItem
    &&& post.first_item == false
    &&& post.acc_status == st
    &&& post.acc_text@ == pre.acc_text@
}

/// A finished item folded into the current list in capture mode: the
/// first item's text is kept whole, every later one is appended trimmed.
pub open spec fn item_folded_text(pre: Engine, post: Engine, was_first: bool, t: Seq<char>) -> bool {
    &&& lists_frame(pre, post)
    &&& post.ctl is NextItem
    &&& post.first_item == false
    &&& post.acc_status == pre.acc_status
    &&& post.acc_text@ == (if was_first {
        t
    } else {
        pre.acc_text@ + trimmed(t)
    })
}

/// An item that could not run at all: it folds as the failing status in
/// status mode and as empty text in capture mode, and any aborted
/// pipeline stages are discarded.
pub open spec fn item_failed_state(pre: Engine, post: Engine, was_first: bool) -> bool {
    &&& post.stages@.len() == 0
    &&& (pre.mode is Status ==> item_folded_status(pre, post, ExecutionStatus { code: 1 }))
    &&& (pre.mode is Capture ==> item_folded_text(pre, post, was_first, Seq::empty()))
}

/// The wiring of one spawn request: stage `idx` of `total` reads the
/// previous stage's pipe exactly when it is not the leftmost stage, and
/// writes a pipe exactly when a stage follows it or the run captures.
pub open spec fn spawn_matches(
    req: SpawnRequest,
    words: Seq<String>,
    idx: int,
    total: int,
    mode: Mode,
    plan: Option<RedirectPlan>,
) -> bool {
    &&& req.words@ == words
    &&& req.words@.len() >= 1
    &&& req.stdin_from_pipe == (idx > 0)
    &&& req.stdout_to_pipe == (mode is Capture || total >= 2)
    &&& req.redirect == plan
}

/// What starting one pipeline stage does: a launchable stage is spawned
/// with the wiring above, a stage whose redirect is rejected or that
/// names no program reports the error and fails the whole item without
/// spawning anything.
pub open spec fn stage_started(
    pre: Engine,
    post: Engine,
    a: Action,
    stage: PipeStage,
    rest_stages: Seq<PipeStage>,
    idx: int,
    total: int,
    was_first: bool,
) -> bool {
    match stage {
        PipeStage::Simple(sc) => {
            if sc.words@.len() == 0 {
                &&& a is Continue
                &&& post.reports@ == pre.reports@.push(ShellError::EmptyCommand)
                &&& item_failed_state(pre, post, was_first)
            } else {
                &&& a matches Action::Spawn(req) && spawn_matches(
                    req,
                    sc.words@,
                    idx,
                    total,
                    pre.mode,
                    None,
                )
                &&& post.ctl is AwaitStage
                &&& post.stages@ == rest_stages
                &&& post.started == idx + 1
                &&& post.total == total
                &&& lists_frame(pre, post)
                &&& post.acc_status == pre.acc_status
                &&& post.acc_text@ == pre.acc_text@
                &&& post.first_item == was_first
                &&& post.reports@ == pre.reports@
            }
        },
        PipeStage::Redirect(rc) => {
            match redirect_plan_spec(rc.redirect) {
                Ok(plan) => {
                    if rc.command.words@.len() == 0 {
                        &&& a is Continue
                        &&& post.reports@ == pre.reports@.push(ShellError::EmptyCommand)
                        &&& item_failed_state(pre, post, was_first)
                    } else {
                        &&& a matches Action::Spawn(req) && spawn_matches(
                            req,
                            rc.command.words@,
                            idx,
                            total,
                            pre.mode,
                            Some(plan),
                        )
                        &&& post.ctl is AwaitStage
                        &&& post.stages@ == rest_stages
                        &&& post.started == idx + 1
                        &&& post.total == total
                        &&& lists_frame(pre, post)
                        &&& post.acc_status == pre.acc_status
                        &&& post.acc_text@ == pre.acc_text@
                        &&& post.first_item == was_first
                        &&& post.reports@ == pre.reports@
                    }
                },
                Err(e) => {
                    &&& a is Continue
                    &&& post.reports@ == pre.reports@.push(e)
                    &&& item_failed_state(pre, post, was_first)
                },
            }
        },
    }
}

/// What starting one and-or entry does, for each node kind: pipelines
/// and plain commands start their first stage; builtins are dispatched
/// or rejected; subshells are handed to the driver to fork; capturing a
/// builtin's or a subshell's output is rejected as unimplemented.
pub open spec fn item_start_rel(
    pre: Engine,
    post: Engine,
    a: Action,
    node: ListableNode,
    was_first: bool,
) -> bool {
    match node {
        ListableNode::Pipe(p) => {
            if p.commands@.len() == 0 {
                &&& a is Continue
                &&& post.reports@ == pre.reports@.push(ShellError::EmptyCommand)
                &&& item_failed_state(pre, post, was_first)
            } else {
                &&& post.bang == p.bang || !(a matches Action::Spawn(_))
                &&& stage_started(
                    pre,
                    post,
                    a,
                    p.commands@[0],
                    p.commands@.reverse().drop_last(),
                    0,
                    p.commands@.len() as int,
                    was_first,
                )
            }
        },
        ListableNode::Single(s) => match s.command {
            SingleKind::Simple(sc) => {
                &&& post.bang == false || !(a matches Action::Spawn(_))
                &&& stage_started(
                    pre,
                    post,
                    a,
                    PipeStage::Simple(sc),
                    Seq::empty(),
                    0,
                    1,
                    was_first,
                )
            },
            SingleKind::Redirect(rc) => {
                &&& post.bang == false || !(a matches Action::Spawn(_))
                &&& stage_started(
                    pre,
                    post,
                    a,
                    PipeStage::Redirect(rc),
                    Seq::empty(),
                    0,
                    1,
                    was_first,
                )
            },
            SingleKind::Builtin(b) => {
                if pre.mode is Capture {
                    &&& a is Continue
                    &&& post.reports@ == pre.reports@.push(ShellError::CaptureUnsupported)
                    &&& item_failed_state(pre, post, was_first)
                } else if builtin_dispatch_ok(b.args@) {
                    &&& a matches Action::RunBuiltin(_)
                    &&& post.ctl is AwaitBuiltin
                    &&& lists_frame(pre, post)
                    &&& post.acc_status == pre.acc_status
                    &&& post.acc_text@ == pre.acc_text@
                    &&& post.first_item == was_first
                    &&& post.reports@ == pre.reports@
                } else {
                    &&& a is Continue
                    &&& post.reports@.len() == pre.reports@.len() + 1
                    &&& pre.reports@.is_prefix_of(post.reports@)
                    &&& item_failed_state(pre, post, was_first)
                }
            },
            SingleKind::Subshell(sub) => {
                if pre.mode is Capture {
                    &&& a is Continue
                    &&& post.reports@ == pre.reports@.push(ShellError::CaptureUnsupported)
                    &&& item_failed_state(pre, post, was_first)
                } else {
                    &&& a matches Action::RunSubshell(s2) && s2.commands@ == sub.commands@
                    &&& post.ctl is AwaitSubshell
                    &&& lists_frame(pre, post)
                    &&& post.acc_status == pre.acc_status
                    &&& post.acc_text@ == pre.acc_text@
                    &&& post.first_item == was_first
                    &&& post.reports@ == pre.reports@
                }
            },
        },
    }
}

impl Engine {
    /// A fresh engine over a forest of top-level and-or lists.  The
    /// threaded status starts succeeding, the captured text empty.
    pub fn new(lists: Vec<AndOrCommandList>, mode: Mode) -> (e: Engine)
        ensures
            e.mode == mode,
            e.pending@ == lists@.reverse(),
            e.status == (ExecutionStatus { code: 0 }),
            e.subst_acc@ == Seq::<char>::empty(),
            e.reports@ == Seq::<ShellError>::empty(),
            e.ctl is StartList,
            engine_inv(e),
    {
        Engine {
            mode,
            pending: reversed(lists),
            status: ExecutionStatus { code: 0 },
            subst_acc: String::new(),
            rest: Vec::new(),
            first_item: true,
            acc_status: ExecutionStatus { code: 0 },
            acc_text: String::new(),
            stages: Vec::new(),
            started: 0,
            total: 0,
            bang: false,
            last_code: 0,
            reports: Vec::new(),
            ctl: Ctl::StartList,
        }
    }

    /// Fold a finished item's status into the current list.
    fn fold_status(&mut self, st: ExecutionStatus)
        ensures
            item_folded_status(*old(self), *final(self), st),
            final(self).stages@ == old(self).stages@,
            final(self).reports@ == old(self).reports@,
            final(self).started == old(self).started,
            final(self).total == old(self).total,
            final(self).pending@ == old(self).pending@,
            final(self).rest@ == old(self).rest@,
    {
        self.acc_status = st;
        self.first_item = false;
        self.ctl = Ctl::NextItem;
    }

    /// Fold a finished item's captured text into the current list.
    fn fold_text(&mut self, t: String)
        ensures
            item_folded_text(*old(self), *final(self), old(self).first_item, t@),
            final(self).stages@ == old(self).stages@,
            final(self).reports@ == old(self).reports@,
            final(self).started == old(self).started,
            final(self).total == old(self).total,
            final(self).pending@ == old(self).pending@,
            final(self).rest@ == old(self).rest@,
    {
        if self.first_item {
            self.acc_text = t;
        } else {
            let tr = trim_str(t.as_str());
            self.acc_text.append(tr.as_str());
        }
        self.first_item = false;
        self.ctl = Ctl::NextItem;
    }

    /// Abandon the current item as failed: failing status, empty text.
    fn fail_item(&mut self)
        ensures
            item_failed_state(*old(self), *final(self), old(self).first_item),
            final(self).reports@ == old(self).reports@,
            final(self).started == old(self).started,
            final(self).total == old(self).total,
            final(self).pending@ == old(self).pending@,
            final(self).rest@ == old(self).rest@,
    {
        self.stages = Vec::new();
        match self.mode {
            Mode::Status => self.fold_status(ExecutionStatus { code: 1 }),
            Mode::Capture => self.fold_text(String::new()),
        }
    }

    /// Emit the spawn request for the next stage.
    fn spawn_words(&mut self, words: Vec<String>, redirect: Option<RedirectPlan>) -> (a: Action)
        requires
            old(self).started + old(self).stages@.len() < old(self).total,
        ensures
            engine_inv(*final(self)),
            final(self).pending@ == old(self).pending@,
            final(self).rest@ == old(self).rest@,
            ({
                let plan = redirect;
                if words@.len() == 0 {
                    &&& a is Continue
                    &&& final(self).reports@ == old(self).reports@.push(ShellError::EmptyCommand)
                    &&& item_failed_state(*old(self), *final(self), old(self).first_item)
                } else {
                    &&& a matches Action::Spawn(req) && spawn_matches(
                        req,
                        words@,
                        old(self).started as int,
                        old(self).total as int,
                        old(self).mode,
                        plan,
                    )
                    &&& final(self).ctl is AwaitStage
                    &&& final(self).stages@ == old(self).stages@
                    &&& final(self).started == old(self).started + 1
                    &&& final(self).total == old(self).total
                    &&& final(self).bang == old(self).bang
                    &&& lists_frame(*old(self), *final(self))
                    &&& final(self).acc_status == old(self).acc_status
                    &&& final(self).acc_text@ == old(self).acc_text@
                    &&& final(self).first_item == old(self).first_item
                    &&& final(self).reports@ == old(self).reports@
                }
            }),
    {
        if words.len() == 0 {
            self.reports.push(ShellError::EmptyCommand);
            self.fail_item();
            return Action::Continue;
        }
        let stdin_from_pipe = self.started > 0;
        let stdout_to_pipe = match self.mode {
            Mode::Capture => true,
            Mode::Status => self.total >= 2,
        };
        self.started = self.started + 1;
        self.ctl = Ctl::AwaitStage;
        Action::Spawn(SpawnRequest { words, stdin_from_pipe, stdout_to_pipe, redirect })
    }

    /// Pop and start the next stage of the current pipeline.
    fn start_stage(&mut self) -> (a: Action)
        requires
            old(self).stages@.len() > 0,
            engine_inv(*old(self)),
        ensures
            stage_started(
                *old(self),
                *final(self),
                a,
                old(self).stages@.last(),
                old(self).stages@.drop_last(),
                old(self).started as int,
                old(self).total as int,
                old(self).first_item,
            ),
            final(self).bang == old(self).bang || !(a matches Action::Spawn(_)),
            engine_inv(*final(self)),
            final(self).pending@ == old(self).pending@,
            final(self).rest@ == old(self).rest@,
    {
        let stage_opt = self.stages.pop();
        match stage_opt {
            Some(PipeStage::Simple(sc)) => self.spawn_words(sc.words, None),
            Some(PipeStage::Redirect(rc)) => {
                match plan_redirect(rc.redirect) {
                    Ok(plan) => self.spawn_words(rc.command.words, Some(plan)),
                    Err(e) => {
                        self.reports.push(e);
                        self.fail_item();
                        Action::Continue
                    },
                }
            },
            None => {
                // unreachable: the stage list is non-empty
                self.fail_item();
                Action::Continue
            },
        }
    }

    /// Begin one and-or entry.
    fn start_item(&mut self, node: ListableNode) -> (a: Action)
        requires
            engine_inv(*old(self)),
        ensures
            item_start_rel(*old(self), *final(self), a, node, old(self).first_item),
            engine_inv(*final(self)),
            final(self).pending@ == old(self).pending@,
            final(self).rest@ == old(self).rest@,
    {
        match node {
            ListableNode::Pipe(p) => {
                if p.commands.len() == 0 {
                    self.reports.push(ShellError::EmptyCommand);
                    self.fail_item();
                    Action::Continue
                } else {
                    self.total = p.commands.len();
                    self.started = 0;
                    self.bang = p.bang;
                    let ghost cmds = p.commands@;
                    self.stages = reversed(p.commands);
                    proof {
                        assert(self.stages@.last() == cmds[0]);
                        assert(self.stages@.drop_last() =~= cmds.reverse().drop_last());
                    }
                    self.start_stage()
                }
            },
            ListableNode::Single(s) => match s.command {
                SingleKind::Simple(sc) => {
                    self.total = 1;
                    self.started = 0;
                    self.bang = false;
                    let mut one: Vec<PipeStage> = Vec::new();
                    one.push(PipeStage::Simple(sc));
                    self.stages = one;
                    proof {
                        assert(self.stages@.drop_last() =~= Seq::<PipeStage>::empty());
                    }
                    self.start_stage()
                },
                SingleKind::Redirect(rc) => {
                    self.total = 1;
                    self.started = 0;
                    self.bang = false;
                    let mut one: Vec<PipeStage> = Vec::new();
                    one.push(PipeStage::Redirect(rc));
                    self.stages = one;
                    proof {
                        assert(self.stages@.drop_last() =~= Seq::<PipeStage>::empty());
                    }
                    self.start_stage()
                },
                SingleKind::Builtin(b) => {
                    match self.mode {
                        Mode::Capture => {
                            self.reports.push(ShellError::CaptureUnsupported);
                            self.fail_item();
                            Action::Continue
                        },
                        Mode::Status => {
                            match dispatch_builtin(b.args) {
                                Ok(act) => {
                                    self.ctl = Ctl::AwaitBuiltin;
                                    Action::RunBuiltin(act)
                                },
                                Err(e) => {
                                    self.reports.push(e);
                                    self.fail_item();
                                    Action::Continue
                                },
                            }
                        },
                    }
                },
                SingleKind::Subshell(sub) => {
                    match self.mode {
                        Mode::Capture => {
                            self.reports.push(ShellError::CaptureUnsupported);
                            self.fail_item();
                            Action::Continue
                        },
                        Mode::Status => {
                            self.ctl = Ctl::AwaitSubshell;
                            Action::RunSubshell(sub)
                        },
                    }
                },
            },
        }
    }

    /// Drive the engine by one transition.  The returned action tells
    /// the driver what outside work to perform, and the next call's
    /// event delivers that work's result; `Event::Start` answers
    /// `Action::Continue`.  An event that does not fit the engine's
    /// state ends the run with the failing status.
    pub fn step(&mut self, ev: Event) -> (a: Action)
        requires
            engine_inv(*old(self)),
        ensures
            engine_inv(*final(self)),
            final(self).mode == old(self).mode,
            old(self).reports@.is_prefix_of(final(self).reports@),
            // while a pipeline, builtin or subshell is in flight, the
            // surrounding lists are untouched
            (old(self).ctl is AwaitStage || old(self).ctl is AwaitFlush || old(self).ctl
                is AwaitRead || old(self).ctl is AwaitBuiltin || old(self).ctl is AwaitSubshell)
                ==> final(self).pending@ == old(self).pending@ && final(self).rest@ == old(self).rest@,
            // a terminal answer always reflects the engine's final state
            a matches Action::Done(st) ==> final(self).ctl is Finished && st == final(self).status,
            a matches Action::DoneText(t) ==> final(self).ctl is Finished && t@ == final(self).subst_acc@,
            // the run ends when no list is left: the threaded status or the
            // accumulated substitution text is the answer
            (old(self).ctl is StartList && ev is Start && old(self).pending@.len() == 0) ==> ({
                &&& final(self).status == old(self).status
                &&& final(self).subst_acc@ == old(self).subst_acc@
                &&& (old(self).mode is Status ==> (a matches Action::Done(st) && st == old(self).status))
                &&& (old(self).mode is Capture ==> (a matches Action::DoneText(t) && t@ == old(self).subst_acc@))
            }),
            // a new list begins with its first entry
            (old(self).ctl is StartList && ev is Start && old(self).pending@.len() > 0) ==> ({
                let l = old(self).pending@.last();
                &&& final(self).pending@ == old(self).pending@.drop_last()
                &&& final(self).rest@ == l.rest@.reverse()
                &&& final(self).status == old(self).status
                &&& final(self).subst_acc@ == old(self).subst_acc@
                &&& item_start_rel(*old(self), *final(self), a, l.first, true)
            }),
            // the and-or decision: the next entry runs or is skipped by its
            // connective; a skipped entry leaves its synthetic result and
            // triggers no outside work at all
            (old(self).ctl is NextItem && ev is Start && old(self).rest@.len() > 0) ==> ({
                let nxt = old(self).rest@.last();
                let runs = if old(self).mode is Status {
                    conj_runs(old(self).acc_status.succeeded(), nxt.conjunction)
                } else {
                    capture_runs(old(self).acc_text@.len() == 0, nxt.conjunction)
                };
                &&& final(self).pending@ == old(self).pending@
                &&& final(self).rest@ == old(self).rest@.drop_last()
                &&& final(self).status == old(self).status
                &&& final(self).subst_acc@ == old(self).subst_acc@
                &&& (if runs {
                    item_start_rel(*old(self), *final(self), a, nxt.command, false)
                } else {
                    &&& a is Continue
                    &&& final(self).ctl is NextItem
                    &&& (old(self).mode is Status ==> final(self).acc_status == skip_status(
                        nxt.conjunction,
                    ) && final(self).acc_text@ == old(self).acc_text@)
                    &&& (old(self).mode is Capture ==> final(self).acc_text@ == old(self).acc_text@
                        && final(self).acc_status == old(self).acc_status)
                })
            }),
            // closing a list threads its result onward: the status replaces
            // the engine's status; the text is trimmed and appended
            (old(self).ctl is NextItem && ev is Start && old(self).rest@.len() == 0) ==> ({
                &&& a is Continue
                &&& final(self).ctl is StartList
                &&& final(self).pending@ == old(self).pending@
                &&& (old(self).mode is Status ==> final(self).status == old(self).acc_status
                    && final(self).subst_acc@ == old(self).subst_acc@)
                &&& (old(self).mode is Capture ==> final(self).subst_acc@ == old(self).subst_acc@
                    + trimmed(old(self).acc_text@) && final(self).status == old(self).status)
            }),
            // a stage exited: remember its code, then start the next stage,
            // or finish the pipeline by reading, flushing, or folding the
            // (possibly negated) final status
            old(self).ctl is AwaitStage ==> (ev matches Event::Exited(c) ==> ({
                &&& final(self).pending@ == old(self).pending@
                &&& final(self).rest@ == old(self).rest@
                &&& final(self).status == old(self).status
                &&& final(self).subst_acc@ == old(self).subst_acc@
                &&& (if old(self).stages@.len() > 0 {
                    &&& stage_started(
                        *old(self),
                        *final(self),
                        a,
                        old(self).stages@.last(),
                        old(self).stages@.drop_last(),
                        old(self).started as int,
                        old(self).total as int,
                        old(self).first_item,
                    )
                    &&& final(self).bang == old(self).bang || !(a matches Action::Spawn(_))
                } else if old(self).mode is Capture {
                    &&& a is ReadPipe
                    &&& final(self).ctl is AwaitRead
                    &&& final(self).last_code == c
                    &&& final(self).first_item == old(self).first_item
                    &&& final(self).acc_text@ == old(self).acc_text@
                    &&& final(self).acc_status == old(self).acc_status
                } else if old(self).total >= 2 {
                    &&& a is FlushPipe
                    &&& final(self).ctl is AwaitFlush
                    &&& final(self).last_code == c
                    &&& final(self).bang == old(self).bang
                    &&& final(self).first_item == old(self).first_item
                    &&& final(self).acc_status == old(self).acc_status
                } else {
                    &&& a is Continue
                    &&& item_folded_status(
                        *old(self),
                        *final(self),
                        if old(self).bang {
                            negated(ExecutionStatus { code: c })
                        } else {
                            ExecutionStatus { code: c }
                        },
                    )
                })
            })),
            // a stage that could not run fails the whole item
            (old(self).ctl is AwaitStage && ev is StageFailed) ==> item_failed_state(
                *old(self),
                *final(self),
                old(self).first_item,
            ) && a is Continue,
            // after the residual flush, the last stage's code, negated where
            // the pipeline asks, is the pipeline's status
            (old(self).ctl is AwaitFlush && ev is Flushed) ==> a is Continue && item_folded_status(
                *old(self),
                *final(self),
                if old(self).bang {
                    negated(ExecutionStatus { code: old(self).last_code })
                } else {
                    ExecutionStatus { code: old(self).last_code }
                },
            ),
            // captured text is the final stage's output, never negated
            old(self).ctl is AwaitRead ==> (ev matches Event::PipeText(t) ==> (a is Continue
                && item_folded_text(*old(self), *final(self), old(self).first_item, t@))),
            (old(self).ctl is AwaitRead && ev is PipeReadFailed) ==> a is Continue
                && item_failed_state(*old(self), *final(self), old(self).first_item),
            // a builtin that ran succeeds; one that failed is the failing status
            (old(self).ctl is AwaitBuiltin && ev is BuiltinDone) ==> a is Continue
                && item_folded_status(*old(self), *final(self), ExecutionStatus { code: 0 }),
            (old(self).ctl is AwaitBuiltin && ev is BuiltinFailed) ==> a is Continue
                && item_folded_status(*old(self), *final(self), ExecutionStatus { code: 1 }),
            // a subshell's exit code is its status; abnormal termination and
            // fork failure are the failing status
            old(self).ctl is AwaitSubshell ==> (ev matches Event::SubshellExited(c) ==> (a
                is Continue && item_folded_status(
                *old(self),
                *final(self),
                ExecutionStatus { code: c },
            ))),
            (old(self).ctl is AwaitSubshell && (ev is SubshellAbnormal || ev is SubshellFailed))
                ==> a is Continue && item_folded_status(
                *old(self),
                *final(self),
                ExecutionStatus { code: 1 },
            ),
    {
        match self.ctl {
            Ctl::StartList => {
                match ev {
                    Event::Start => {
                        let list_opt = self.pending.pop();
                        match list_opt {
                            None => {
                                self.ctl = Ctl::Finished;
                                match self.mode {
                                    Mode::Status => Action::Done(self.status),
                                    Mode::Capture => Action::DoneText(self.subst_acc.clone()),
                                }
                            },
                            Some(list) => {
                                self.first_item = true;
                                self.rest = reversed(list.rest);
                                self.start_item(list.first)
                            },
                        }
                    },
                    _ => self.protocol_fault(),
                }
            },
            Ctl::NextItem => {
                match ev {
                    Event::Start => {
                        let item_opt = self.rest.pop();
                        match item_opt {
                            None => {
                                match self.mode {
                                    Mode::Status => {
                                        self.status = self.acc_status;
                                    },
                                    Mode::Capture => {
                                        let tr = trim_str(self.acc_text.as_str());
                                        self.subst_acc.append(tr.as_str());
                                    },
                                }
                                self.ctl = Ctl::StartList;
                                Action::Continue
                            },
                            Some(item) => {
                                let runs = match self.mode {
                                    Mode::Status => {
                                        let prev_ok = self.acc_status.success();
                                        match item.conjunction {
                                            Conjunction::And => prev_ok,
                                            Conjunction::Or => !prev_ok,
                                            Conjunction::Sequence => true,
                                        }
                                    },
                                    Mode::Capture => {
                                        let acc_empty = self.acc_text.as_str().unicode_len() == 0;
                                        match item.conjunction {
                                            Conjunction::And => !acc_empty,
                                            Conjunction::Or => acc_empty,
                                            Conjunction::Sequence => true,
                                        }
                                    },
                                };
                                if runs {
                                    self.first_item = false;
                                    self.start_item(item.command)
                                } else {
                                    match self.mode {
                                        Mode::Status => {
                                            let st = match item.conjunction {
                                                Conjunction::And => ExecutionStatus { code: 1 },
                                                Conjunction::Or => ExecutionStatus { code: 0 },
                                                Conjunction::Sequence => ExecutionStatus {
                                                    code: 0,
                                                },
                                            };
                                            self.acc_status = st;
                                        },
                                        Mode::Capture => {},
                                    }
                                    self.ctl = Ctl::NextItem;
                                    Action::Continue
                                }
                            },
                        }
                    },
                    _ => self.protocol_fault(),
                }
            },
            Ctl::AwaitStage => {
                match ev {
                    Event::Exited(c) => {
                        self.last_code = c;
                        if self.stages.len() > 0 {
                            self.start_stage()
                        } else {
                            match self.mode {
                                Mode::Capture => {
                                    self.ctl = Ctl::AwaitRead;
                                    Action::ReadPipe
                                },
                                Mode::Status => {
                                    if self.total >= 2 {
                                        self.ctl = Ctl::AwaitFlush;
                                        Action::FlushPipe
                                    } else {
                                        let st = apply_negation(
                                            self.bang,
                                            ExecutionStatus { code: c },
                                        );
                                        self.fold_status(st);
                                        Action::Continue
                                    }
                                },
                            }
                        }
                    },
                    Event::StageFailed => {
                        self.fail_item();
                        Action::Continue
                    },
                    _ => self.protocol_fault(),
                }
            },
            Ctl::AwaitFlush => {
                match ev {
                    Event::Flushed => {
                        let st = apply_negation(self.bang, ExecutionStatus { code: self.last_code });
                        self.fold_status(st);
                        Action::Continue
                    },
                    _ => self.protocol_fault(),
                }
            },
            Ctl::AwaitRead => {
                match ev {
                    Event::PipeText(t) => {
                        self.fold_text(t);
                        Action::Continue
                    },
                    Event::PipeReadFailed => {
                        self.fail_item();
                        Action::Continue
                    },
                    _ => self.protocol_fault(),
                }
            },
            Ctl::AwaitBuiltin => {
                match ev {
                    Event::BuiltinDone => {
                        self.fold_status(ExecutionStatus { code: 0 });
                        Action::Continue
                    },
                    Event::BuiltinFailed => {
                        self.fold_status(ExecutionStatus { code: 1 });
                        Action::Continue
                    },
                    _ => self.protocol_fault(),
                }
            },
            Ctl::AwaitSubshell => {
                match ev {
                    Event::SubshellExited(c) => {
                        self.fold_status(ExecutionStatus { code: c });
                        Action::Continue
                    },
                    Event::SubshellAbnormal => {
                        self.fold_status(ExecutionStatus { code: 1 });
                        Action::Continue
                    },
                    Event::SubshellFailed => {
                        self.fold_status(ExecutionStatus { code: 1 });
                        Action::Continue
                    },
                    _ => self.protocol_fault(),
                }
            },
            Ctl::Finished => {
                match self.mode {
                    Mode::Status => Action::Done(self.status),
                    Mode::Capture => Action::DoneText(self.subst_acc.clone()),
                }
            },
        }
    }

    /// An event that does not fit the engine's state: the run is
    /// abandoned with the failing status.
    fn protocol_fault(&mut self) -> (a: Action)
        ensures
            final(self).ctl is Finished,
            final(self).status == (ExecutionStatus { code: 1 }),
            final(self).mode == old(self).mode,
            final(self).reports@ == old(self).reports@,
            final(self).stages@ == old(self).stages@,
            final(self).started == old(self).started,
            final(self).total == old(self).total,
            final(self).pending@ == old(self).pending@,
            final(self).rest@ == old(self).rest@,
            final(self).subst_acc@ == old(self).subst_acc@,
            a matches Action::Done(st) && st == (ExecutionStatus { code: 1 }),
    {
        self.status = ExecutionStatus { code: 1 };
        self.ctl = Ctl::Finished;
        Action::Done(self.status)
    }
}

/// The short-circuit law: an `&&` continuation runs exactly when the
/// status so far succeeded and a skipped one is left failing; an `||`
/// continuation runs exactly when it failed and a skipped one is left
/// succeeding; a `;` continuation always runs.  Together with `step`'s
/// contract (a skipped entry returns `Action::Continue`, so the driver
/// performs no outside work for it), this pins the and-or semantics.
pub proof fn lemma_short_circuit(prev: ExecutionStatus)
    ensures
        conj_runs(prev.succeeded(), Conjunction::And) <==> prev.succeeded(),
        conj_runs(prev.succeeded(), Conjunction::Or) <==> !prev.succeeded(),
        conj_runs(prev.succeeded(), Conjunction::Sequence),
        !skip_status(Conjunction::And).succeeded(),
        skip_status(Conjunction::Or).succeeded(),
{
}

/// The capture-mode fallback law: with text accumulated so far, `&&`
/// appends the next segment exactly when that text is non-empty, and
/// `||` exactly when it is empty, so substitution expressions compose
/// fallback text.
pub proof fn lemma_capture_fallback(acc_empty: bool)
    ensures
        capture_runs(acc_empty, Conjunction::And) <==> !acc_empty,
        capture_runs(acc_empty, Conjunction::Or) <==> acc_empty,
        capture_runs(acc_empty, Conjunction::Sequence),
{
}

} // verus!
