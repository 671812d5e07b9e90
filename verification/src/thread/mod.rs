pub mod recorder;

pub use crate::config::ThreadConfig;
