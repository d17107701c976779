//! Platform-neutral core of a macOS backend for a Wayland compositor:
//! key and button translation, modifier decoding, input event queues and
//! their conversion, frame pacing, display bookkeeping, and the window and
//! renderer state that the backend keeps.

pub mod keymap;
pub mod modifiers;
pub mod gesture;
pub mod events;
pub mod input_adapter;
pub mod frame_timer;
pub mod display;
pub mod input;
pub mod event_source;
pub mod window;
pub mod render;
pub mod ipc;
pub mod output;
pub mod backend;
pub mod signals;
