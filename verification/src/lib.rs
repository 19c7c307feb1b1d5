//! Button remapping for the Logitech M720 Triathlon mouse.
//!
//! The two thumb buttons of the mouse are turned into workspace-switching
//! keyboard chords on a virtual keyboard; every other event is left alone.

pub mod config;
pub mod device;
pub mod event;
pub mod fault;
pub mod host;
pub mod injector;
pub mod keys;
pub mod remapper;
pub mod session;
pub mod text;
pub mod virtual_device;
