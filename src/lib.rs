//! Cross-platform wallpaper engine: shell-safe path escaping, desktop
//! backend detection, command construction, temporary download naming,
//! image encoding selection and the shared wallpaper state.

pub mod backend;
pub mod codec;
pub mod detect;
pub mod dispatch;
pub mod escape;
pub mod state;
