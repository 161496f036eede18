//! The decision logic of a window system layer.
//!
//! Everything in this crate works on plain values: what the window system reported goes in, what
//! to ask of it next comes out. Talking to the window system itself is left to the program that
//! links this library.

pub mod bits;
pub mod dialog;
pub mod geometry;
pub mod glazier;
pub mod hotkey;
pub mod keyboard;
pub mod linux;
pub mod menu;
pub mod mouse;
pub mod pointer;
pub mod strings;
pub mod text;
pub mod utf16;
pub mod util;
pub mod wayland;
pub mod window;
pub mod windows;
pub mod x11;
pub mod xkb;
