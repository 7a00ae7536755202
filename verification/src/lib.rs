//! Verified core of the Parallel World desktop companion: behavior policy,
//! character profile rules and conversation helpers.

pub mod behavior;
pub mod character;
pub mod chat;
pub mod logs;
pub mod text;
