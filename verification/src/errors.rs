use vstd::prelude::*;

verus! {

/// Every condition the engine reports instead of crashing: malformed or
/// unsupported node shapes at construction time, and failures observed
/// while running.  Each is a one-line diagnostic for the caller to render.
#[derive(Clone, Copy, PartialEq, Eq, Structural, Debug)]
pub enum ShellError {
    /// A simple command with no words at all.
    EmptyCommand,
    /// More than one redirect on one command: explicitly unimplemented.
    TooManyRedirects,
    /// A quoted, concatenated or otherwise unsupported word form.
    UnsupportedWord,
    /// A parameter substitution other than command substitution.
    UnsupportedSubstitution,
    /// A descriptor-duplication, clobber or here-document redirect.
    UnsupportedRedirect,
    /// An explicit target descriptor this redirect kind cannot bind.
    BadDescriptor(u16),
    /// A builtin invocation with no operation name.
    MalformedBuiltin,
    /// An operation name outside the fixed builtin set.
    UnknownBuiltin,
    /// A builtin that needs an argument it was not given.
    MissingArgument,
    /// A non-numeric or out-of-range exit-code argument.
    BadExitCode,
    /// Capturing the output of a builtin or a subshell: unimplemented.
    CaptureUnsupported,
    /// Job-control syntax, shell functions or compound commands other
    /// than subshells.
    UnsupportedConstruct,
}

impl ShellError {
    /// The one-line diagnostic text for this condition.
    pub fn describe(&self) -> (m: &'static str) {
        match self {
            ShellError::EmptyCommand => "empty command",
            ShellError::TooManyRedirects => "multiple redirects on one command are not implemented",
            ShellError::UnsupportedWord => "this word form is not supported",
            ShellError::UnsupportedSubstitution => "this parameter substitution is not supported",
            ShellError::UnsupportedRedirect => "this redirect kind is not implemented",
            ShellError::BadDescriptor(_) => "redirects to this descriptor are not implemented",
            ShellError::MalformedBuiltin => "malformed builtin",
            ShellError::UnknownBuiltin => "malformed builtin",
            ShellError::MissingArgument => "a required argument is missing",
            ShellError::BadExitCode => "the exit code must be a number",
            ShellError::CaptureUnsupported => "capturing this command's output is not implemented",
            ShellError::UnsupportedConstruct => "this command form is not implemented",
        }
    }
}

} // verus!
