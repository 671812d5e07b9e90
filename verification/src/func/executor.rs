//! The interface of an executor, and what passes between an executor and
//! the host that runs commands for it.
//!
//! An executor never runs a command itself. It says which command it needs
//! ([`ExecutorStep::Run`]), the host runs it under the requested timeout,
//! and the executor turns the outcome into its result or into the next
//! command.

use vstd::prelude::*;
use crate::error::{AiResult, ExecutionError};
use crate::func::system::platform::Platform;
use crate::json::{entry_views, JsonMember, MemberSpec};
use crate::provider::{FunctionCall, FunctionDefinition, FunctionResult, ResultSpec};
use crate::text::views;

verus! {

/// A command that the host is asked to run.
#[derive(Debug, PartialEq)]
pub struct CommandRequest {
    pub program: String,
    pub args: Vec<String>,
    /// The seconds after which the host gives the command up.
    pub timeout_seconds: u64,
    /// The directory to run the command in, if not the current one.
    pub working_dir: Option<String>,
}

/// The mathematical form of a [`CommandRequest`].
pub struct RequestSpec {
    pub program: Seq<char>,
    pub args: Seq<Seq<char>>,
    pub timeout_seconds: u64,
    pub working_dir: Option<Seq<char>>,
}

impl View for CommandRequest {
    type V = RequestSpec;

    open spec fn view(&self) -> RequestSpec {
        RequestSpec {
            program: self.program@,
            args: views(self.args@),
            timeout_seconds: self.timeout_seconds,
            working_dir: match self.working_dir {
                Some(d) => Some(d@),
                None => None,
            },
        }
    }
}

/// What a command that ran to its end left behind.
#[derive(Debug, PartialEq)]
pub struct CommandOutput {
    pub stdout: String,
    pub stderr: String,
    /// Whether the exit status was zero.
    pub success: bool,
}

/// How the run of a command ended.
#[derive(Debug, PartialEq)]
pub enum CommandOutcome {
    /// The command ran to its end, with whatever exit status.
    Completed(CommandOutput),
    /// The command did not end within its timeout.
    TimedOut,
    /// The process could not be started; the text says why.
    FailedToStart(String),
}

/// The mathematical form of a [`CommandOutcome`].
pub enum OutcomeSpec {
    Completed { stdout: Seq<char>, stderr: Seq<char>, success: bool },
    TimedOut,
    FailedToStart(Seq<char>),
}

impl View for CommandOutcome {
    type V = OutcomeSpec;

    open spec fn view(&self) -> OutcomeSpec {
        match self {
            CommandOutcome::Completed(o) => OutcomeSpec::Completed {
                stdout: o.stdout@,
                stderr: o.stderr@,
                success: o.success,
            },
            CommandOutcome::TimedOut => OutcomeSpec::TimedOut,
            CommandOutcome::FailedToStart(why) => OutcomeSpec::FailedToStart(why@),
        }
    }
}

impl CommandOutcome {
    /// The output of a command that ran to its end, or the error that
    /// says why there is none: the process could not be started, or it
    /// did not end within the `timeout_seconds` that it was given.
    pub fn into_output(self, timeout_seconds: u64) -> (r: Result<CommandOutput, ExecutionError>)
        ensures
            match self {
                CommandOutcome::Completed(output) => r == Ok::<CommandOutput, ExecutionError>(
                    output,
                ),
                CommandOutcome::TimedOut => r == Err::<CommandOutput, ExecutionError>(
                    ExecutionError::Timeout(timeout_seconds),
                ),
                CommandOutcome::FailedToStart(why) => r == Err::<CommandOutput, ExecutionError>(
                    ExecutionError::CommandFailed(why),
                ),
            },
    {
        match self {
            CommandOutcome::Completed(output) => Ok(output),
            CommandOutcome::TimedOut => Err(ExecutionError::Timeout(timeout_seconds)),
            CommandOutcome::FailedToStart(why) => Err(ExecutionError::CommandFailed(why)),
        }
    }
}

impl OutcomeSpec {
    /// Why the command did not run to its end, in the words of the host.
    pub open spec fn reason_text(self) -> Seq<char> {
        match self {
            OutcomeSpec::Completed { .. } => Seq::empty(),
            OutcomeSpec::TimedOut => "Command execution timeout"@,
            OutcomeSpec::FailedToStart(why) => why,
        }
    }

    /// What is reported where the command did not run to its end.
    pub open spec fn failure_text(self) -> Seq<char> {
        match self {
            OutcomeSpec::Completed { .. } => Seq::empty(),
            OutcomeSpec::TimedOut => "Command execution timeout"@,
            OutcomeSpec::FailedToStart(why) => "Command execution failed: "@ + why,
        }
    }
}

/// A command that is under way, with what the executor needs to go on
/// once its outcome is known.
#[derive(Debug, PartialEq)]
pub struct PendingCommand {
    pub request: CommandRequest,
    /// Which of the executor's commands this is, counted from zero.
    pub stage: usize,
    /// What earlier commands of the same call have yielded.
    pub collected: Vec<JsonMember>,
}

/// The mathematical form of a [`PendingCommand`].
pub struct PendingSpec {
    pub request: RequestSpec,
    pub stage: nat,
    pub collected: Seq<MemberSpec>,
}

impl View for PendingCommand {
    type V = PendingSpec;

    open spec fn view(&self) -> PendingSpec {
        PendingSpec {
            request: self.request@,
            stage: self.stage as nat,
            collected: entry_views(self.collected@),
        }
    }
}

/// What an executor wants next.
#[derive(Debug, PartialEq)]
pub enum ExecutorStep {
    /// Run this command and come back with its outcome.
    Run(PendingCommand),
    /// The call is done; this is its result.
    Done(FunctionResult),
}

/// The mathematical form of an [`ExecutorStep`].
pub enum StepSpec {
    Run(PendingSpec),
    Done(ResultSpec),
}

impl View for ExecutorStep {
    type V = StepSpec;

    open spec fn view(&self) -> StepSpec {
        match self {
            ExecutorStep::Run(p) => StepSpec::Run(p@),
            ExecutorStep::Done(r) => StepSpec::Done(r@),
        }
    }
}

/// Whether an executor declares `name`: its list of supported functions
/// can hold it.
pub open spec fn may_declare<E: FunctionExecutor>(executor: &E, name: Seq<char>) -> bool {
    exists|names: Vec<String>|
        #![trigger call_ensures(E::supported_functions, (executor,), names)]
        call_ensures(E::supported_functions, (executor,), names) && views(names@).contains(name)
}

/// Whether an executor can fail to declare `name`: its list of supported
/// functions can lack it.
pub open spec fn may_omit<E: FunctionExecutor>(executor: &E, name: Seq<char>) -> bool {
    exists|names: Vec<String>|
        #![trigger call_ensures(E::supported_functions, (executor,), names)]
        call_ensures(E::supported_functions, (executor,), names) && !views(names@).contains(name)
}

/// A provider of operations. An executor has no state that a call could
/// change, so one executor can serve any number of registries.
pub trait FunctionExecutor {
    /// The names of the operations that this executor declares.
    fn supported_functions(&self) -> (names: Vec<String>);

    /// The schema of one of the executor's operations.
    fn get_function_schema(&self, function_name: &str) -> (schema: Option<FunctionDefinition>);

    /// Starts a call: the first command to run, or the result at once.
    fn begin(&self, call: &FunctionCall, platform: &Platform) -> (step: AiResult<ExecutorStep>);

    /// Goes on with a call once the command of `pending` has ended.
    fn resume(
        &self,
        call: &FunctionCall,
        platform: &Platform,
        pending: PendingCommand,
        outcome: CommandOutcome,
    ) -> (step: AiResult<ExecutorStep>);
}

} // verus!
