//! Chains: prompt templates, step configuration and sequential execution.

pub mod template;
pub mod types;
pub mod chain;
pub mod run;
