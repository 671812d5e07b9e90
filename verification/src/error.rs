//! The errors of the registry, of execution, of requests and of
//! configuration.

use vstd::prelude::*;
use crate::text::{append, decimal_text, unsigned_text};

verus! {

/// What the registry and its manager refuse.
#[derive(Debug, Clone, PartialEq)]
pub enum RegistryError {
    /// No executor is bound to the name of the call.
    NotFound(String),
    /// The name is taken already.
    AlreadyRegistered(String),
    /// The executor does not declare the name it was to be bound to.
    ContractViolation(String),
    /// The manager holds no registry.
    NotInitialized,
}

/// What stops the execution of a call.
#[derive(Debug, Clone, PartialEq)]
pub enum ExecutionError {
    /// The command ran longer than the given number of seconds.
    Timeout(u64),
    /// The process could not be started.
    CommandFailed(String),
    /// The arguments of the call cannot be used.
    InvalidArguments(String),
    /// The executor does not know the function.
    UnknownFunction(String),
}

/// Why a request to a provider came to nothing.
#[derive(Debug, Clone, PartialEq)]
pub enum AiErrReason {
    /// The named provider allows no more requests for now.
    RateLimitError(String),
    /// So many tokens were asked for, and so many are allowed.
    TokenLimitError(usize, usize),
    ContextError(String),
    NoProviderAvailable,
    InvalidModel(String),
    SensitiveContentFiltered,
    ExecutionError(String),
    ToolCallError(String),
    ToolGetError(String),
    InvalidInput(String),
    PermissionDenied(String),
    InternalError(String),
}

/// An error of this library.
#[derive(Debug, Clone, PartialEq)]
pub enum AiError {
    Registry(RegistryError),
    Execution(ExecutionError),
    Ai(AiErrReason),
    /// A configuration that cannot be used; the text says why.
    Config(String),
}

/// The result of an operation that can fail.
pub type AiResult<T> = Result<T, AiError>;

impl RegistryError {
    /// The message of the error.
    pub open spec fn message_text(self) -> Seq<char> {
        match self {
            RegistryError::NotFound(name) => "No executor found for function '"@ + name@ + "'"@,
            RegistryError::AlreadyRegistered(name) => "Function '"@ + name@
                + "' already registered"@,
            RegistryError::ContractViolation(name) => "Executor does not support function '"@
                + name@ + "'"@,
            RegistryError::NotInitialized => "Global function registry not initialized. Call initialize() first."@,
        }
    }

    /// The message of the error.
    pub fn message(&self) -> (out: String)
        ensures
            out@ == self.message_text(),
    {
        let mut out = String::new();
        match self {
            RegistryError::NotFound(name) => {
                append(&mut out, "No executor found for function '");
                append(&mut out, name.as_str());
                append(&mut out, "'");
            },
            RegistryError::AlreadyRegistered(name) => {
                append(&mut out, "Function '");
                append(&mut out, name.as_str());
                append(&mut out, "' already registered");
            },
            RegistryError::ContractViolation(name) => {
                append(&mut out, "Executor does not support function '");
                append(&mut out, name.as_str());
                append(&mut out, "'");
            },
            RegistryError::NotInitialized => {
                append(
                    &mut out,
                    "Global function registry not initialized. Call initialize() first.",
                );
            },
        }
        assert(out@ =~= self.message_text());
        out
    }
}

impl ExecutionError {
    /// The message of the error.
    pub open spec fn message_text(self) -> Seq<char> {
        match self {
            ExecutionError::Timeout(_) => "Command execution timeout"@,
            ExecutionError::CommandFailed(why) => "Command execution failed: "@ + why@,
            ExecutionError::InvalidArguments(why) => why@,
            ExecutionError::UnknownFunction(why) => why@,
        }
    }

    /// The message of the error.
    pub fn message(&self) -> (out: String)
        ensures
            out@ == self.message_text(),
    {
        let mut out = String::new();
        match self {
            ExecutionError::Timeout(_) => {
                append(&mut out, "Command execution timeout");
            },
            ExecutionError::CommandFailed(why) => {
                append(&mut out, "Command execution failed: ");
                append(&mut out, why.as_str());
            },
            ExecutionError::InvalidArguments(why) => {
                append(&mut out, why.as_str());
            },
            ExecutionError::UnknownFunction(why) => {
                append(&mut out, why.as_str());
            },
        }
        assert(out@ =~= self.message_text());
        out
    }
}

impl AiErrReason {
    /// The fixed words that the message begins with.
    pub open spec fn heading_text(self) -> Seq<char> {
        match self {
            AiErrReason::RateLimitError(_) => "API rate limit exceeded for provider: "@,
            AiErrReason::TokenLimitError(_, _) => "Token limit exceeded: "@,
            AiErrReason::ContextError(_) => "Context collection failed: "@,
            AiErrReason::NoProviderAvailable => "No suitable provider found for request"@,
            AiErrReason::InvalidModel(_) => "Invalid model specified: "@,
            AiErrReason::SensitiveContentFiltered => "Sensitive content filtered"@,
            AiErrReason::ExecutionError(_) => "Execution error: "@,
            AiErrReason::ToolCallError(_) => "Tool call error: "@,
            AiErrReason::ToolGetError(_) => "Tool get error: "@,
            AiErrReason::InvalidInput(_) => "Invalid input: "@,
            AiErrReason::PermissionDenied(_) => "Permission denied: "@,
            AiErrReason::InternalError(_) => "Internal error: "@,
        }
    }

    /// What follows the heading.
    pub open spec fn detail_text(self) -> Seq<char> {
        match self {
            AiErrReason::RateLimitError(what) => what@,
            AiErrReason::TokenLimitError(asked, max) => decimal_text(asked as nat)
                + " tokens requested, max "@ + decimal_text(max as nat),
            AiErrReason::ContextError(what) => what@,
            AiErrReason::NoProviderAvailable => Seq::empty(),
            AiErrReason::InvalidModel(what) => what@,
            AiErrReason::SensitiveContentFiltered => Seq::empty(),
            AiErrReason::ExecutionError(what) => what@,
            AiErrReason::ToolCallError(what) => what@,
            AiErrReason::ToolGetError(what) => what@,
            AiErrReason::InvalidInput(what) => what@,
            AiErrReason::PermissionDenied(what) => what@,
            AiErrReason::InternalError(what) => what@,
        }
    }

    /// The message of the error.
    pub open spec fn message_text(self) -> Seq<char> {
        self.heading_text() + self.detail_text()
    }

    /// The fixed words that the message begins with.
    pub fn heading(&self) -> (r: &'static str)
        ensures
            r@ == self.heading_text(),
    {
        match self {
            AiErrReason::RateLimitError(_) => "API rate limit exceeded for provider: ",
            AiErrReason::TokenLimitError(_, _) => "Token limit exceeded: ",
            AiErrReason::ContextError(_) => "Context collection failed: ",
            AiErrReason::NoProviderAvailable => "No suitable provider found for request",
            AiErrReason::InvalidModel(_) => "Invalid model specified: ",
            AiErrReason::SensitiveContentFiltered => "Sensitive content filtered",
            AiErrReason::ExecutionError(_) => "Execution error: ",
            AiErrReason::ToolCallError(_) => "Tool call error: ",
            AiErrReason::ToolGetError(_) => "Tool get error: ",
            AiErrReason::InvalidInput(_) => "Invalid input: ",
            AiErrReason::PermissionDenied(_) => "Permission denied: ",
            AiErrReason::InternalError(_) => "Internal error: ",
        }
    }

    /// The message of the error.
    pub fn message(&self) -> (out: String)
        ensures
            out@ == self.message_text(),
    {
        let mut out = String::new();
        append(&mut out, self.heading());
        match self {
            AiErrReason::TokenLimitError(asked, max) => {
                let asked_text = unsigned_text(*asked as u64);
                let max_text = unsigned_text(*max as u64);
                append(&mut out, asked_text.as_str());
                append(&mut out, " tokens requested, max ");
                append(&mut out, max_text.as_str());
            },
            AiErrReason::NoProviderAvailable | AiErrReason::SensitiveContentFiltered => {},
            AiErrReason::RateLimitError(what)
            | AiErrReason::ContextError(what)
            | AiErrReason::InvalidModel(what)
            | AiErrReason::ExecutionError(what)
            | AiErrReason::ToolCallError(what)
            | AiErrReason::ToolGetError(what)
            | AiErrReason::InvalidInput(what)
            | AiErrReason::PermissionDenied(what)
            | AiErrReason::InternalError(what) => {
                append(&mut out, what.as_str());
            },
        }
        assert(out@ =~= self.message_text());
        out
    }
}

impl AiError {
    /// The message of the error.
    pub open spec fn message_text(self) -> Seq<char> {
        match self {
            AiError::Registry(e) => e.message_text(),
            AiError::Execution(e) => e.message_text(),
            AiError::Ai(e) => e.message_text(),
            AiError::Config(why) => why@,
        }
    }

    /// The message of the error.
    pub fn message(&self) -> (out: String)
        ensures
            out@ == self.message_text(),
    {
        match self {
            AiError::Registry(e) => e.message(),
            AiError::Execution(e) => e.message(),
            AiError::Ai(e) => e.message(),
            AiError::Config(why) => why.clone(),
        }
    }
}

} // verus!
