pub mod builtin;
pub mod executor;
pub mod git;
pub mod global;
pub mod registry;
pub mod system;
