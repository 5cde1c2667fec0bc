use vstd::prelude::*;

verus! {

/// The closed set of display languages the application can be switched to.
/// Exactly one language is active at a time, held by the enclosing
/// application settings.
#[derive(Clone, Copy, Debug, PartialEq, Eq)]
pub enum Language {
    /// English, the fallback for every message key that lacks a translation
    /// in the requested language.
    EN,
    /// Spanish.
    ES,
    /// Italian.
    IT,
    /// French.
    FR,
    /// German: selectable, but no catalog entry has been authored for it yet,
    /// so every message key resolves to its English fallback.
    DE,
}

} // verus!
