//! Context-aware companion behavior: safety latch, mode resolution and
//! proactive delivery policy.

pub mod activity;
pub mod mode;
pub mod personas;
pub mod proactive;
pub mod runtime;
pub mod safety;
pub mod settings;
