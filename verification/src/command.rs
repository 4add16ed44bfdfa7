//! Specification of one external command invocation: the argument vector,
//! the environment overlay, the piped standard-input payload, the output
//! mode, and the failure policy — together with the verified decision of
//! what a finished invocation means under that policy.
//!
//! Spawning the process itself is left to the surrounding binary, which
//! reports what happened as a [`CommandOutcome`] and lets [`ShBuilder::conclude`]
//! turn it into success or an [`Error`].

use vstd::prelude::*;
use crate::errors::Error;
use crate::strings::{join_strings, spec_join, views_of};

verus! {

/// The full description of one external command invocation.
///
/// `cmd[0]` is the executable, `cmd[1..]` its arguments. The extra
/// environment pairs are overlaid on the inherited environment, taking
/// precedence on a name collision. `input` is written whole to the child's
/// standard input. With `show_output` the child's output streams to the
/// parent's; otherwise it is captured so the standard-error text can be
/// reported on failure. With `check` (the default) a non-zero exit status
/// is a failure; without it any exit status counts as success.
#[derive(Debug)]
pub struct ShBuilder {
    pub cmd: Vec<String>,
    pub env: Vec<(String, String)>,
    pub input: String,
    pub show_output: bool,
    pub check: bool,
}

/// Starts a command specification for the given argument vector.
pub fn sh(cmd: Vec<String>) -> (r: ShBuilder)
    requires
        cmd@.len() > 0,
    ensures
        r.cmd == cmd,
        r.env@ == Seq::<(String, String)>::empty(),
        r.input@ == Seq::<char>::empty(),
        r.show_output == false,
        r.check == true,
{
    ShBuilder::new(cmd)
}

/// What the surrounding binary observed of one invocation.
pub enum CommandOutcome {
    /// The executable could not be located or started; the system's message.
    SpawnFailed(String),
    /// The standard-input pipe could not be obtained or written; the detail.
    StdinUnavailable(String),
    /// The child ran to completion: whether its exit status was zero, and
    /// the captured standard-error text (empty when output was shown live).
    Exited { exit_ok: bool, stderr: String },
}

impl ShBuilder {
    /// A fresh specification: no extra environment, empty input, captured
    /// output, and the checking failure policy.
    pub fn new(cmd: Vec<String>) -> (r: Self)
        requires
            cmd@.len() > 0,
        ensures
            r.cmd == cmd,
            r.env@ == Seq::<(String, String)>::empty(),
            r.input@ == Seq::<char>::empty(),
            r.show_output == false,
            r.check == true,
    {
        Self { cmd, env: Vec::new(), input: String::new(), show_output: false, check: true }
    }

    /// Sets the extra environment pairs overlaid on the inherited
    /// environment.
    pub fn env(self, env: Vec<(String, String)>) -> (r: Self)
        ensures
            r == (ShBuilder { env, ..self }),
    {
        Self { env, ..self }
    }

    /// Sets the payload written whole to the child's standard input.
    pub fn input(self, input: String) -> (r: Self)
        ensures
            r == (ShBuilder { input, ..self }),
    {
        Self { input, ..self }
    }

    /// Streams the child's output live instead of capturing it.
    pub fn show_output(self) -> (r: Self)
        ensures
            r == (ShBuilder { show_output: true, ..self }),
    {
        Self { show_output: true, ..self }
    }

    /// Sets the failure policy: with `check`, a non-zero exit status is a
    /// failure; without it, any exit status is treated as success.
    pub fn check(self, check: bool) -> (r: Self)
        ensures
            r == (ShBuilder { check, ..self }),
    {
        Self { check, ..self }
    }

    /// The argument vector joined by single spaces, as logged before the
    /// command is spawned.
    pub fn command_line(&self) -> (r: String)
        ensures
            r@ == spec_join(views_of(self.cmd@), " "@),
    {
        join_strings(&self.cmd, " ")
    }

    /// Decides what a finished invocation means under this specification's
    /// failure policy: spawn and standard-input failures always fail; a
    /// non-zero exit status fails exactly under the checking policy, and
    /// then carries the captured standard-error text.
    pub fn conclude(&self, outcome: CommandOutcome) -> (r: Result<(), Error>)
        ensures
            match outcome {
                CommandOutcome::SpawnFailed(detail) => r == Err::<(), Error>(
                    Error::SpawnFailed(detail),
                ),
                CommandOutcome::StdinUnavailable(detail) => r == Err::<(), Error>(
                    Error::StdinUnavailable(detail),
                ),
                CommandOutcome::Exited { exit_ok, stderr } => if self.check && !exit_ok {
                    r == Err::<(), Error>(Error::CommandFailed(stderr))
                } else {
                    r == Ok::<(), Error>(())
                },
            },
    {
        match outcome {
            CommandOutcome::SpawnFailed(detail) => Err(Error::SpawnFailed(detail)),
            CommandOutcome::StdinUnavailable(detail) => Err(Error::StdinUnavailable(detail)),
            CommandOutcome::Exited { exit_ok, stderr } => {
                if self.check && !exit_ok {
                    Err(Error::CommandFailed(stderr))
                } else {
                    Ok(())
                }
            },
        }
    }
}

} // verus!
