//! Preference and locale model for a desktop network-monitoring application.
//!
//! Two cooperating subsystems, both pure value transformations:
//!
//! - the notification preference model: per-category alert thresholds that can
//!   be toggled on and off without losing the last value the user entered,
//!   unit-scaled byte quantities whose canonical value is always raw bytes,
//!   and a clamped volume setting;
//! - the locale resolution table: a total, panic-free mapping from message key
//!   and language to display text, falling back to English wherever a
//!   translation was never authored.
//!
//! User input that cannot be read as a number is never an error: it degrades
//! to zero, so an edit in progress can never leave the model in a bad state.

pub mod language;
pub mod notifications;
pub mod parse;
pub mod settings;
pub mod translations;
pub mod units;
