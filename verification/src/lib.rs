//! Local tools for an orchestrator, and a diagnosis of the system built on
//! them.
//!
//! A [`func::registry::FunctionRegistry`] holds the schemas that are
//! advertised and the executors that serve them; a
//! [`func::global::GlobalFunctionRegistry`] adds the built-in tools and
//! checked registration at run time. An executor runs nothing itself: it
//! names a command ([`func::executor::ExecutorStep`]), the host runs it
//! under its timeout, and the executor turns the outcome into a result.
//! [`exec_unit::diagnosis::ProgressiveDiagnosis`] names the calls of a
//! diagnosis in the same way and makes a
//! [`types::diagnosis::DiagnosticReport`] of their results.
//!
//! Every function carries a contract over the mathematical form of its
//! data, and the laws of the registry are stated as proof functions beside
//! it.

pub mod config;
pub mod decimal;
pub mod error;
pub mod exec_unit;
pub mod func;
pub mod json;
pub mod name_map;
pub mod provider;
pub mod roleid;
pub mod text;
pub mod text_order;
pub mod thread;
pub mod types;
