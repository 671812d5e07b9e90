//! The executors that come with the library, as one type, and beside
//! them the executors of the host.

use vstd::prelude::*;
use crate::error::AiResult;
use crate::func::executor::{CommandOutcome, ExecutorStep, FunctionExecutor, PendingCommand};
use crate::func::git::{git_names, git_schemas, GitFunctionExecutor};
use crate::func::system::analysis::{analysis_names, analysis_schemas, AnalysisExecutor};
use crate::func::system::diagnosis::{diagnosis_names, diagnosis_schemas, DiagnosisExecutor};
use crate::func::system::fs::{fs_names, fs_schemas, FileSystemExecutor};
use crate::func::system::monitor::{monitor_names, monitor_schemas, MonitorExecutor};
use crate::func::system::net::{net_names, net_schemas, NetworkExecutor};
use crate::func::system::platform::Platform;
use crate::func::system::sys::{sys_names, sys_schemas, SystemInfoExecutor};
use crate::provider::{schema_named, DefinitionSpec, FunctionCall, FunctionDefinition};
use crate::text::views;

verus! {

/// One of the executors that come with the library.
#[derive(Debug, Clone, Copy, PartialEq, Eq, Structural)]
pub enum BuiltinExecutor {
    Git(GitFunctionExecutor),
    FileSystem(FileSystemExecutor),
    SystemInfo(SystemInfoExecutor),
    Network(NetworkExecutor),
    Diagnosis(DiagnosisExecutor),
    Monitor(MonitorExecutor),
    Analysis(AnalysisExecutor),
}

/// The names that a built-in executor declares.
pub open spec fn builtin_names_of(executor: BuiltinExecutor) -> Seq<Seq<char>> {
    match executor {
        BuiltinExecutor::Git(_) => git_names(),
        BuiltinExecutor::FileSystem(_) => fs_names(),
        BuiltinExecutor::SystemInfo(_) => sys_names(),
        BuiltinExecutor::Network(_) => net_names(),
        BuiltinExecutor::Diagnosis(_) => diagnosis_names(),
        BuiltinExecutor::Monitor(_) => monitor_names(),
        BuiltinExecutor::Analysis(_) => analysis_names(),
    }
}

/// The schemas of a built-in executor.
pub open spec fn builtin_schemas_of(executor: BuiltinExecutor) -> Seq<DefinitionSpec> {
    match executor {
        BuiltinExecutor::Git(_) => git_schemas(),
        BuiltinExecutor::FileSystem(_) => fs_schemas(),
        BuiltinExecutor::SystemInfo(_) => sys_schemas(),
        BuiltinExecutor::Network(_) => net_schemas(),
        BuiltinExecutor::Diagnosis(_) => diagnosis_schemas(),
        BuiltinExecutor::Monitor(_) => monitor_schemas(),
        BuiltinExecutor::Analysis(_) => analysis_schemas(),
    }
}

impl FunctionExecutor for BuiltinExecutor {
    fn supported_functions(&self) -> (names: Vec<String>)
        ensures
            views(names@) == builtin_names_of(*self),
    {
        match self {
            BuiltinExecutor::Git(e) => e.supported_functions(),
            BuiltinExecutor::FileSystem(e) => e.supported_functions(),
            BuiltinExecutor::SystemInfo(e) => e.supported_functions(),
            BuiltinExecutor::Network(e) => e.supported_functions(),
            BuiltinExecutor::Diagnosis(e) => e.supported_functions(),
            BuiltinExecutor::Monitor(e) => e.supported_functions(),
            BuiltinExecutor::Analysis(e) => e.supported_functions(),
        }
    }

    fn get_function_schema(&self, function_name: &str) -> (schema: Option<FunctionDefinition>)
        ensures
            schema is Some <==> schema_named(builtin_schemas_of(*self), function_name@) is Some,
            schema matches Some(d) ==> schema_named(builtin_schemas_of(*self), function_name@)
                == Some(d@),
    {
        match self {
            BuiltinExecutor::Git(e) => e.get_function_schema(function_name),
            BuiltinExecutor::FileSystem(e) => e.get_function_schema(function_name),
            BuiltinExecutor::SystemInfo(e) => e.get_function_schema(function_name),
            BuiltinExecutor::Network(e) => e.get_function_schema(function_name),
            BuiltinExecutor::Diagnosis(e) => e.get_function_schema(function_name),
            BuiltinExecutor::Monitor(e) => e.get_function_schema(function_name),
            BuiltinExecutor::Analysis(e) => e.get_function_schema(function_name),
        }
    }

    fn begin(&self, call: &FunctionCall, platform: &Platform) -> (step: AiResult<ExecutorStep>)
        ensures
            match *self {
                BuiltinExecutor::Git(e) => call_ensures(
                    GitFunctionExecutor::begin,
                    (&e, call, platform),
                    step,
                ),
                BuiltinExecutor::FileSystem(e) => call_ensures(
                    FileSystemExecutor::begin,
                    (&e, call, platform),
                    step,
                ),
                BuiltinExecutor::SystemInfo(e) => call_ensures(
                    SystemInfoExecutor::begin,
                    (&e, call, platform),
                    step,
                ),
                BuiltinExecutor::Network(e) => call_ensures(
                    NetworkExecutor::begin,
                    (&e, call, platform),
                    step,
                ),
                BuiltinExecutor::Diagnosis(e) => call_ensures(
                    DiagnosisExecutor::begin,
                    (&e, call, platform),
                    step,
                ),
                BuiltinExecutor::Monitor(e) => call_ensures(
                    MonitorExecutor::begin,
                    (&e, call, platform),
                    step,
                ),
                BuiltinExecutor::Analysis(e) => call_ensures(
                    AnalysisExecutor::begin,
                    (&e, call, platform),
                    step,
                ),
            },
    {
        match self {
            BuiltinExecutor::Git(e) => e.begin(call, platform),
            BuiltinExecutor::FileSystem(e) => e.begin(call, platform),
            BuiltinExecutor::SystemInfo(e) => e.begin(call, platform),
            BuiltinExecutor::Network(e) => e.begin(call, platform),
            BuiltinExecutor::Diagnosis(e) => e.begin(call, platform),
            BuiltinExecutor::Monitor(e) => e.begin(call, platform),
            BuiltinExecutor::Analysis(e) => e.begin(call, platform),
        }
    }

    fn resume(
        &self,
        call: &FunctionCall,
        platform: &Platform,
        pending: PendingCommand,
        outcome: CommandOutcome,
    ) -> (step: AiResult<ExecutorStep>)
        ensures
            match *self {
                BuiltinExecutor::Git(e) => call_ensures(
                    GitFunctionExecutor::resume,
                    (&e, call, platform, pending, outcome),
                    step,
                ),
                BuiltinExecutor::FileSystem(e) => call_ensures(
                    FileSystemExecutor::resume,
                    (&e, call, platform, pending, outcome),
                    step,
                ),
                BuiltinExecutor::SystemInfo(e) => call_ensures(
                    SystemInfoExecutor::resume,
                    (&e, call, platform, pending, outcome),
                    step,
                ),
                BuiltinExecutor::Network(e) => call_ensures(
                    NetworkExecutor::resume,
                    (&e, call, platform, pending, outcome),
                    step,
                ),
                BuiltinExecutor::Diagnosis(e) => call_ensures(
                    DiagnosisExecutor::resume,
                    (&e, call, platform, pending, outcome),
                    step,
                ),
                BuiltinExecutor::Monitor(e) => call_ensures(
                    MonitorExecutor::resume,
                    (&e, call, platform, pending, outcome),
                    step,
                ),
                BuiltinExecutor::Analysis(e) => call_ensures(
                    AnalysisExecutor::resume,
                    (&e, call, platform, pending, outcome),
                    step,
                ),
            },
    {
        match self {
            BuiltinExecutor::Git(e) => e.resume(call, platform, pending, outcome),
            BuiltinExecutor::FileSystem(e) => e.resume(call, platform, pending, outcome),
            BuiltinExecutor::SystemInfo(e) => e.resume(call, platform, pending, outcome),
            BuiltinExecutor::Network(e) => e.resume(call, platform, pending, outcome),
            BuiltinExecutor::Diagnosis(e) => e.resume(call, platform, pending, outcome),
            BuiltinExecutor::Monitor(e) => e.resume(call, platform, pending, outcome),
            BuiltinExecutor::Analysis(e) => e.resume(call, platform, pending, outcome),
        }
    }
}

/// An executor of the library or one of the host.
#[derive(Debug, Clone, PartialEq)]
pub enum ToolExecutor<C> {
    Builtin(BuiltinExecutor),
    Custom(C),
}

impl<C: FunctionExecutor> FunctionExecutor for ToolExecutor<C> {
    fn supported_functions(&self) -> (names: Vec<String>)
        ensures
            match *self {
                ToolExecutor::Builtin(e) => views(names@) == builtin_names_of(e),
                ToolExecutor::Custom(e) => call_ensures(C::supported_functions, (&e,), names),
            },
    {
        match self {
            ToolExecutor::Builtin(e) => e.supported_functions(),
            ToolExecutor::Custom(e) => e.supported_functions(),
        }
    }

    fn get_function_schema(&self, function_name: &str) -> (schema: Option<FunctionDefinition>)
        ensures
            match *self {
                ToolExecutor::Builtin(e) => call_ensures(
                    BuiltinExecutor::get_function_schema,
                    (&e, function_name),
                    schema,
                ),
                ToolExecutor::Custom(e) => call_ensures(
                    C::get_function_schema,
                    (&e, function_name),
                    schema,
                ),
            },
    {
        match self {
            ToolExecutor::Builtin(e) => e.get_function_schema(function_name),
            ToolExecutor::Custom(e) => e.get_function_schema(function_name),
        }
    }

    fn begin(&self, call: &FunctionCall, platform: &Platform) -> (step: AiResult<ExecutorStep>)
        ensures
            match *self {
                ToolExecutor::Builtin(e) => call_ensures(
                    BuiltinExecutor::begin,
                    (&e, call, platform),
                    step,
                ),
                ToolExecutor::Custom(e) => call_ensures(C::begin, (&e, call, platform), step),
            },
    {
        match self {
            ToolExecutor::Builtin(e) => e.begin(call, platform),
            ToolExecutor::Custom(e) => e.begin(call, platform),
        }
    }

    fn resume(
        &self,
        call: &FunctionCall,
        platform: &Platform,
        pending: PendingCommand,
        outcome: CommandOutcome,
    ) -> (step: AiResult<ExecutorStep>)
        ensures
            match *self {
                ToolExecutor::Builtin(e) => call_ensures(
                    BuiltinExecutor::resume,
                    (&e, call, platform, pending, outcome),
                    step,
                ),
                ToolExecutor::Custom(e) => call_ensures(
                    C::resume,
                    (&e, call, platform, pending, outcome),
                    step,
                ),
            },
    {
        match self {
            ToolExecutor::Builtin(e) => e.resume(call, platform, pending, outcome),
            ToolExecutor::Custom(e) => e.resume(call, platform, pending, outcome),
        }
    }
}

} // verus!
