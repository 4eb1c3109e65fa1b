use vstd::prelude::*;
use crate::command::Redirect;
use crate::errors::ShellError;

verus! {

/// How the target file of a redirect is opened.
#[derive(Clone, Copy, PartialEq, Eq, Structural, Debug)]
pub enum OpenMode {
    /// Open an existing file; it is an error if it is missing.
    ReadExisting,
    /// Create the file or truncate what is there.
    CreateTruncate,
    /// Create the file if absent and append to it.
    CreateAppend,
    /// Create the file if absent, allowing reads and writes.
    CreateReadWrite,
}

/// The standard-stream slot a redirect binds.
#[derive(Clone, Copy, PartialEq, Eq, Structural, Debug)]
pub enum StreamSlot {
    Stdin,
    Stdout,
    Stderr,
}

/// A fully decided redirect: which file to open, how, and which slot of
/// the spawned stage receives it.
#[derive(Clone, PartialEq, Eq, Debug)]
pub struct RedirectPlan {
    pub mode: OpenMode,
    pub slot: StreamSlot,
    pub path: String,
}

/// What each redirect specification decides: the open mode and target slot,
/// or the reported error.  A missing descriptor defaults to standard input
/// for reads and standard output for writes; only descriptors 0, 1 and 2
/// are ever bound, and only in the direction the kind allows.  The
/// duplication, clobber and here-document kinds are rejected outright.
pub open spec fn redirect_plan_spec(r: Redirect) -> Result<RedirectPlan, ShellError> {
    match r {
        Redirect::Read(fd, path) => match fd {
            None => Ok(RedirectPlan { mode: OpenMode::ReadExisting, slot: StreamSlot::Stdin, path }),
            Some(0u16) => Ok(
                RedirectPlan { mode: OpenMode::ReadExisting, slot: StreamSlot::Stdin, path },
            ),
            Some(d) => Err(ShellError::BadDescriptor(d)),
        },
        Redirect::Write(fd, path) => match fd {
            None => Ok(
                RedirectPlan { mode: OpenMode::CreateTruncate, slot: StreamSlot::Stdout, path },
            ),
            Some(1u16) => Ok(
                RedirectPlan { mode: OpenMode::CreateTruncate, slot: StreamSlot::Stdout, path },
            ),
            Some(2u16) => Ok(
                RedirectPlan { mode: OpenMode::CreateTruncate, slot: StreamSlot::Stderr, path },
            ),
            Some(d) => Err(ShellError::BadDescriptor(d)),
        },
        Redirect::Append(fd, path) => match fd {
            None => Ok(RedirectPlan { mode: OpenMode::CreateAppend, slot: StreamSlot::Stdout, path }),
            Some(1u16) => Ok(
                RedirectPlan { mode: OpenMode::CreateAppend, slot: StreamSlot::Stdout, path },
            ),
            Some(2u16) => Ok(
                RedirectPlan { mode: OpenMode::CreateAppend, slot: StreamSlot::Stderr, path },
            ),
            Some(d) => Err(ShellError::BadDescriptor(d)),
        },
        Redirect::ReadWrite(fd, path) => match fd {
            None => Ok(
                RedirectPlan { mode: OpenMode::CreateReadWrite, slot: StreamSlot::Stdin, path },
            ),
            Some(0u16) => Ok(
                RedirectPlan { mode: OpenMode::CreateReadWrite, slot: StreamSlot::Stdin, path },
            ),
            Some(1u16) => Ok(
                RedirectPlan { mode: OpenMode::CreateReadWrite, slot: StreamSlot::Stdout, path },
            ),
            Some(2u16) => Ok(
                RedirectPlan { mode: OpenMode::CreateReadWrite, slot: StreamSlot::Stderr, path },
            ),
            Some(d) => Err(ShellError::BadDescriptor(d)),
        },
        Redirect::DupRead(_, _) => Err(ShellError::UnsupportedRedirect),
        Redirect::DupWrite(_, _) => Err(ShellError::UnsupportedRedirect),
        Redirect::Clobber(_, _) => Err(ShellError::UnsupportedRedirect),
        Redirect::Heredoc(_, _) => Err(ShellError::UnsupportedRedirect),
    }
}

/// Decide a redirect: exactly `redirect_plan_spec`.  The redirect is
/// consumed; the path moves into the plan.
pub fn plan_redirect(r: Redirect) -> (res: Result<RedirectPlan, ShellError>)
    ensures
        res == redirect_plan_spec(r),
{
    match r {
        Redirect::Read(fd, path) => match fd {
            None | Some(0u16) => Ok(
                RedirectPlan { mode: OpenMode::ReadExisting, slot: StreamSlot::Stdin, path },
            ),
            Some(d) => Err(ShellError::BadDescriptor(d)),
        },
        Redirect::Write(fd, path) => match fd {
            None | Some(1u16) => Ok(
                RedirectPlan { mode: OpenMode::CreateTruncate, slot: StreamSlot::Stdout, path },
            ),
            Some(2u16) => Ok(
                RedirectPlan { mode: OpenMode::CreateTruncate, slot: StreamSlot::Stderr, path },
            ),
            Some(d) => Err(ShellError::BadDescriptor(d)),
        },
        Redirect::Append(fd, path) => match fd {
            None | Some(1u16) => Ok(
                RedirectPlan { mode: OpenMode::CreateAppend, slot: StreamSlot::Stdout, path },
            ),
            Some(2u16) => Ok(
                RedirectPlan { mode: OpenMode::CreateAppend, slot: StreamSlot::Stderr, path },
            ),
            Some(d) => Err(ShellError::BadDescriptor(d)),
        },
        Redirect::ReadWrite(fd, path) => match fd {
            None | Some(0u16) => Ok(
                RedirectPlan { mode: OpenMode::CreateReadWrite, slot: StreamSlot::Stdin, path },
            ),
            Some(1u16) => Ok(
                RedirectPlan { mode: OpenMode::CreateReadWrite, slot: StreamSlot::Stdout, path },
            ),
            Some(2u16) => Ok(
                RedirectPlan { mode: OpenMode::CreateReadWrite, slot: StreamSlot::Stderr, path },
            ),
            Some(d) => Err(ShellError::BadDescriptor(d)),
        },
        Redirect::DupRead(_, _) => Err(ShellError::UnsupportedRedirect),
        Redirect::DupWrite(_, _) => Err(ShellError::UnsupportedRedirect),
        Redirect::Clobber(_, _) => Err(ShellError::UnsupportedRedirect),
        Redirect::Heredoc(_, _) => Err(ShellError::UnsupportedRedirect),
    }
}

/// An unsupported redirect kind is always rejected, whatever descriptor or
/// path it names, and a supported kind never binds a descriptor above 2.
pub proof fn lemma_redirect_rejections(r: Redirect)
    ensures
        (r is DupRead || r is DupWrite || r is Clobber || r is Heredoc) ==> redirect_plan_spec(
            r,
        ) == Err::<RedirectPlan, ShellError>(ShellError::UnsupportedRedirect),
        redirect_plan_spec(r) matches Ok(p) ==> (p.slot is Stdin || p.slot is Stdout
            || p.slot is Stderr),
{
}

} // verus!
