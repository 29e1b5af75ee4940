//! Decisions and texts of a Discord rich-presence animator that lives in the
//! system tray.
pub mod animation;
pub mod animations;
pub mod autorun;
pub mod client;
pub mod frame;
pub mod json_animation;
pub mod text;
pub mod tray;
