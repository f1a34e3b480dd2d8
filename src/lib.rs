//! Keyboard-layout mismatch detection and correction.
//!
//! The library holds the verified decision logic of a background utility that
//! watches keystrokes, notices a word typed in the wrong keyboard layout
//! (Latin keys while Cyrillic was meant, or the reverse) and replaces it.
pub mod config;
pub mod decision;
pub mod engine;
pub mod errors;
pub mod events;
pub mod executor;
pub mod guard;
pub mod heuristics;
pub mod input;
pub mod lang;
pub mod layouts;
pub mod platform;
pub mod spell;
pub mod switcher;
pub mod text;
pub mod translit;
