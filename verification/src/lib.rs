//! A minimal real-time rendering core.
//!
//! The crate decides what a frame consists of and how the render loop reacts
//! to surface invalidation; the shell around it owns the GPU and window
//! handles, performs the work the core asks for and reports the outcome.

pub mod app;
pub mod game_window;
pub mod graphics;

pub use crate::app::App;
pub use crate::game_window::GameWindow;
