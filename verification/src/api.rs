//! The API of the framework: the window abstraction, and one facade per subsystem
//! (audio, governing, graphics, I/O, scripts) that forwards to a backend chosen by
//! name and swappable at run time.
pub mod audio;
pub mod govern;
pub mod graphics;
pub mod io;
pub mod scripting;
pub mod scripts;

pub use scripting::ScriptingEngine;

use vstd::prelude::*;

verus! {

/// A window abstraction, so that a desktop or an embedded window can stand behind the
/// same calls.
pub trait Window {
    /// Creates a window with the given title and size in pixels.
    fn new(title: &str, width: u32, height: u32) -> Self where Self: Sized;

    /// Processes the pending events and updates the window state.
    fn update(&mut self);

    /// Whether the window is still open.
    fn is_open(&self) -> bool;
}

/// Which backend a facade forwards to: one that the library holds, or one handed in
/// from outside.
#[derive(Clone, Copy, Debug, PartialEq, Eq)]
pub enum BackendKind {
    Dummy,
    Winit,
    Plugged,
}

} // verus!
