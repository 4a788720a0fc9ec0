//! Vietnamese input method engine: Telex, VNI and VIQR composition with a
//! syllable checker and abbreviations, plus the settings and hotkey rules of
//! its front ends.

pub mod letters;
pub mod telex;
pub mod buffer;
pub mod validation;
pub mod compose;
pub mod engine;
pub mod window_state;
pub mod text;
pub mod config;
pub mod settings;
pub mod hotkey;
pub mod ibus;
pub mod tray;
pub mod prototype;
pub mod frontend;
pub mod abbreviation;
