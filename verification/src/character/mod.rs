//! Character selection settings, profile catalog rules and managed imports.

pub mod catalog;
pub mod image;
pub mod import;
pub mod model3;
pub mod settings;
pub mod setup;
