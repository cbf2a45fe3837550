//! The boundary to external programs: what to run, and what the outcome
//! of a run means.

use vstd::prelude::*;
use vstd::string::*;
use crate::error::{CCResult, ControlCentreError, SystemFailure};
use crate::text::{trim, trimmed};

verus! {

/// One run of an external program.
#[derive(Debug, Clone, PartialEq, Eq)]
pub struct Invocation {
    /// The program's name.
    pub program: String,
    /// Its arguments, in order.
    pub args: Vec<String>,
    /// Whether its output is wanted, or only whether it succeeded. Its
    /// error output is wanted either way.
    pub capture: bool,
    /// The milliseconds to wait before it is started.
    pub delay_ms: u64,
}

/// An invocation as contracts see it.
pub struct InvocationView {
    pub program: Seq<char>,
    pub args: Seq<Seq<char>>,
    pub capture: bool,
    pub delay_ms: u64,
}

impl View for Invocation {
    type V = InvocationView;

    open spec fn view(&self) -> InvocationView {
        InvocationView {
            program: self.program@,
            args: Seq::new(self.args@.len(), |i: int| self.args@[i]@),
            capture: self.capture,
            delay_ms: self.delay_ms,
        }
    }
}

/// What is known of a program that was started and has ended.
#[derive(Debug, Clone, PartialEq, Eq)]
pub struct ProcessOutput {
    /// Whether it ended with success.
    pub success: bool,
    /// What it wrote to its standard output.
    pub stdout: String,
    /// What it wrote to its standard error.
    pub stderr: String,
}

/// What a program's run answers to the one who asked for it.
pub type CommandReply = CCResult<String>;

/// What the run of a program came to: what is known of a program that
/// has ended, or the failure of the system to start it.
pub type Outcome = Result<ProcessOutput, SystemFailure>;

/// What a run whose output is wanted answers: the trimmed output of a
/// program that succeeded, `CommandFailed` with the trimmed error output
/// of one that failed, and the system's error for one that did not start.
pub fn run_command(outcome: Outcome) -> (r: CommandReply)
    ensures
        match outcome {
            Ok(output) => if output.success {
                r matches Ok(text) && text@ == trimmed(output.stdout@)
            } else {
                r matches Err(ControlCentreError::CommandFailed(text)) && text@ == trimmed(
                    output.stderr@,
                )
            },
            Err(failure) => r matches Err(e) && e.io_variant(failure.kind) && e.detail()
                == failure.detail@,
        },
{
    match outcome {
        Ok(output) => {
            if output.success {
                Ok(String::from_str(trim(output.stdout.as_str())))
            } else {
                Err(
                    ControlCentreError::CommandFailed(
                        String::from_str(trim(output.stderr.as_str())),
                    ),
                )
            }
        },
        Err(failure) => Err(ControlCentreError::from(failure)),
    }
}

/// What a run answers of which only success is wanted: nothing for a
/// program that succeeded, whatever it wrote; for the rest the same as
/// `run_command`, which is `CommandFailed` with the trimmed error output
/// of a program that failed, and the system's error for one that did not
/// start.
pub fn run_command_no_output(outcome: Outcome) -> (r: CCResult<()>)
    ensures
        match outcome {
            Ok(output) => if output.success {
                r is Ok
            } else {
                r matches Err(ControlCentreError::CommandFailed(text)) && text@ == trimmed(
                    output.stderr@,
                )
            },
            Err(failure) => r matches Err(e) && e.io_variant(failure.kind) && e.detail()
                == failure.detail@,
        },
{
    match outcome {
        Ok(output) => {
            if output.success {
                Ok(())
            } else {
                Err(
                    ControlCentreError::CommandFailed(
                        String::from_str(trim(output.stderr.as_str())),
                    ),
                )
            }
        },
        Err(failure) => Err(ControlCentreError::from(failure)),
    }
}

/// The reply to `invocation` for the outcome of its run: that of
/// `run_command` where the output is wanted, else that of
/// `run_command_no_output`, with an empty text for success.
pub fn reply_to(invocation: &Invocation, outcome: Outcome) -> (r: CommandReply)
    ensures
        match outcome {
            Ok(output) => if output.success {
                r matches Ok(text) && text@ == (if invocation.capture {
                    trimmed(output.stdout@)
                } else {
                    Seq::<char>::empty()
                })
            } else {
                r matches Err(ControlCentreError::CommandFailed(text)) && text@ == trimmed(
                    output.stderr@,
                )
            },
            Err(failure) => r matches Err(e) && e.io_variant(failure.kind) && e.detail()
                == failure.detail@,
        },
{
    if invocation.capture {
        run_command(outcome)
    } else {
        match run_command_no_output(outcome) {
            Ok(_) => Ok(String::new()),
            Err(e) => Err(e),
        }
    }
}

} // verus!
