//! Windows: a headless one for embedded use, and the state of the desktop one.
pub mod desktop;
pub mod embedded;
