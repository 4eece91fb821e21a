//! The decisions of a small utility that confines the cursor to one monitor.
//!
//! Reading the keyboard, clipping the cursor, threads and drawing are left to the
//! program around this library. Every rule in between is here, with its contract:
//! how a bind is named and read back, what the settings file holds, which keys
//! count as held, what a display change does to the lock, and what has to be done
//! next.

pub mod capture;
pub mod geometry;
pub mod hotkey;
pub mod keys;
pub mod laws;
pub mod locker;
pub mod monitor;
pub mod registration;
pub mod settings;
pub mod text;
pub mod utf16;
