//! Immediate-mode drawing facade: colours, pen state, a queue of pending
//! draw tasks, and per-frame keyboard and mouse state.
//!
//! All interaction happens through a [`Window`]. Draw calls are queued
//! together with the pen of their moment; [`Window::update`], called once per
//! frame, takes in the frame's input events and turns the queue into the
//! commands that draw the frame.

pub mod color;
pub mod font;
pub mod input;
pub mod key;
pub mod laws;
pub mod render_parameters;
pub mod shape;
pub mod texture;
pub mod window;

pub use color::Color;
pub use font::Font;
pub use key::{Button, Key};
pub use texture::Texture;
pub use window::Window;
