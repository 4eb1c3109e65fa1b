//! The execution core of a small interactive shell.  A command tree of
//! simple commands, pipelines, and-or lists, redirects, builtins and
//! subshells is built from the external parser's output and run by an
//! event-driven engine: the engine owns every decision (short-circuit
//! evaluation, pipeline wiring, redirect planning, builtin dispatch,
//! status propagation, output capture) and a thin unverified driver
//! performs the process work it asks for and reports the outcomes back.

pub mod builtins;
pub mod command;
pub mod engine;
pub mod errors;
pub mod parser;
pub mod redirect;
pub mod status;
pub mod words;
