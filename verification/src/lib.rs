//! Layered service configuration: a value model, a shallow right-biased merge,
//! and the conversion of configuration trees into template data.

pub mod value;
pub mod merge;
pub mod text;
pub mod template;
pub mod config;
pub mod json;
pub mod error;
pub mod source;
pub mod http;
pub mod orchestrator;
