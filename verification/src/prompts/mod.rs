//! System prompt assembly: operating modes, ordered prompt sections,
//! environment context and provider-specific preambles.

pub mod builder;
pub mod environment;
pub mod provider;
