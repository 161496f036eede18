//! The Windows backend.

pub mod application;
pub mod messages;
pub mod style;
pub mod text_input;
pub mod window;
