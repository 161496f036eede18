//! The X11 backend.

pub mod pointer;
pub mod window;
