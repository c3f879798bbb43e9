//! Creek: a small engine framework whose subsystems (audio, governing, graphics,
//! I/O, scripts) sit behind swappable backends.
pub mod api;
pub mod backends;
pub mod components;
pub mod text;
mod report;

pub use components::console::DeveloperConsole as Console;
