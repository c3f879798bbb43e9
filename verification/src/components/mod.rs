//! Components built on the API.
pub mod console;
