//! Conversation worker helpers: character prompt assembly, control
//! dispatch and the bounded enrichment wake queue.

pub mod enrichment;
pub mod fingerprint;
pub mod llm_settings;
pub mod memory;
pub mod worker;
