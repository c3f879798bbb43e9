//! The backends the library holds, and the decisions of those that run outside it.
pub mod audio_dummy;
pub mod audio_rodio;
pub mod io_vulkanwinit;
pub mod govern_dummy;
pub mod govern_winit;
pub mod graphics_dummy;
pub mod io_dummy;
pub mod scripts_dummy;
pub mod scripting;
pub mod scripts_lua;
pub mod window;
