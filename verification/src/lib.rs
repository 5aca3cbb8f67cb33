//! Global-hotkey bindings for Spotify playback control.
//!
//! The verified core of the application: parsing configured key-combination
//! strings, tracking modifier state and matching pressed keys against the
//! configured binds, deciding which playback call each matched action leads
//! to (with volume clamping), and encoding/decoding the persisted settings
//! and credential records as JSON text.

pub mod dispatch;
pub mod hotkey;
pub mod jsontext;
pub mod keys;
pub mod settings;
