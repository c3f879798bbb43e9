//! Scripting engines.
pub mod lua;
