use vstd::prelude::*;

verus! {

/// The connective joining two entries of an and-or list.
#[derive(Clone, Copy, PartialEq, Eq, Structural, Debug)]
pub enum Conjunction {
    /// Run the next entry only if the previous status succeeded.
    And,
    /// Run the next entry only if the previous status failed.
    Or,
    /// Run the next entry regardless of the previous status.
    Sequence,
}

/// A redirect specification: the kind of rebinding, an optional explicit
/// descriptor number, and the target file path.  Only the first four kinds
/// are supported; the others are recognised so that they can be rejected
/// with a reported error instead of silent misbehaviour.
#[derive(Clone, PartialEq, Eq, Debug)]
pub enum Redirect {
    /// Open an existing file for reading.
    Read(Option<u16>, String),
    /// Create or truncate a file for writing.
    Write(Option<u16>, String),
    /// Create or append to a file for writing.
    Append(Option<u16>, String),
    /// Create a file if absent, allowing both reading and writing.
    ReadWrite(Option<u16>, String),
    /// Duplicate a descriptor for reading: unsupported.
    DupRead(Option<u16>, String),
    /// Duplicate a descriptor for writing: unsupported.
    DupWrite(Option<u16>, String),
    /// Clobbering write: unsupported.
    Clobber(Option<u16>, String),
    /// Here-document: unsupported.
    Heredoc(Option<u16>, String),
}

/// A plain launch specification: the full argument vector, whose first
/// entry is the program name.
#[derive(Clone, PartialEq, Eq, Debug)]
pub struct SimpleCommand {
    pub words: Vec<String>,
}

/// A simple command together with exactly one redirect to apply
/// immediately before it is spawned.
#[derive(Clone, PartialEq, Eq, Debug)]
pub struct RedirectCommand {
    pub command: SimpleCommand,
    pub redirect: Redirect,
}

/// A shell-internal operation: the raw argument vector, whose first entry
/// is the operation name.  An empty vector is the placeholder for a node
/// that could not be constructed; running it reports a failure.
#[derive(Clone, PartialEq, Eq, Debug)]
pub struct BuiltinCommand {
    pub args: Vec<String>,
}

/// One launchable stage of a pipeline.
#[derive(Clone, PartialEq, Eq, Debug)]
pub enum PipeStage {
    Simple(SimpleCommand),
    Redirect(RedirectCommand),
}

/// An ordered sequence of pipeline stages plus the negation flag
/// (`!` in front of the pipeline).
#[derive(Clone, PartialEq, Eq, Debug)]
pub struct PipeCommands {
    pub commands: Vec<PipeStage>,
    pub bang: bool,
}

/// The variants a single (non-pipeline) command can take.
#[derive(Debug)]
pub enum SingleKind {
    Simple(SimpleCommand),
    Redirect(RedirectCommand),
    Builtin(BuiltinCommand),
    Subshell(SubshellCommand),
}

/// One command standing alone in an and-or list.
#[derive(Debug)]
pub struct SingleCommand {
    pub command: SingleKind,
}

/// Either a single command or a pipeline: the unit an and-or list chains.
#[derive(Debug)]
pub enum ListableNode {
    Single(SingleCommand),
    Pipe(PipeCommands),
}

/// One `&&`, `||` or `;` continuation of an and-or list.
#[derive(Debug)]
pub struct AndOrCommand {
    pub command: ListableNode,
    pub conjunction: Conjunction,
}

/// A first command and its ordered `&&` / `||` / `;` continuations.
#[derive(Debug)]
pub struct AndOrCommandList {
    pub first: ListableNode,
    pub rest: Vec<AndOrCommand>,
}

/// A nested command list to run in an isolated child process.
#[derive(Debug)]
pub struct SubshellCommand {
    pub commands: Vec<AndOrCommandList>,
}

/// The error reported when input names a command shape the engine does not
/// recognise.  Carried as a plain message; rendering is the caller's business.
#[derive(Clone, PartialEq, Eq, Debug)]
pub struct UnrecognizedCommandError {
    pub message: String,
}

impl UnrecognizedCommandError {
    pub fn new(message: String) -> (e: UnrecognizedCommandError)
        ensures
            e.message@ == message@,
    {
        UnrecognizedCommandError { message }
    }
}

/// Reverse a vector, consuming it.
pub fn reversed<T>(v: Vec<T>) -> (r: Vec<T>)
    ensures
        r@ == v@.reverse(),
{
    let mut src = v;
    let mut r: Vec<T> = Vec::new();
    proof {
        assert(src@.take(src@.len() as int) =~= src@);
    }
    while src.len() > 0
        invariant
            src@ == v@.take(src@.len() as int),
            src@.len() + r@.len() == v@.len(),
            forall|i: int|
                0 <= i < r@.len() ==> #[trigger] r@[i] == v@[v@.len() - 1 - i],
        decreases src@.len(),
    {
        let ghost pre = src@;
        match src.pop() {
            Some(x) => {
                proof {
                    assert(pre.drop_last() =~= v@.take(pre.len() - 1));
                }
                r.push(x);
            },
            None => {},
        }
    }
    proof {
        assert(r@ =~= v@.reverse());
    }
    r
}

} // verus!
