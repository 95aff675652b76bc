//! Session-lifecycle and input-routing core of a terminal login dialog.
//!
//! The library owns the state that a keystroke can change — the selected
//! authentication mode, the credential modal with its focus machinery, and the
//! text input buffer — and the rules that decide, for every key, whether the
//! key is consumed, bubbled to the enclosing shell, or turned into a submit.
//! Terminal I/O, event polling and rendering live outside the library; they
//! hand keys in and act on the directives that come back.

pub mod details;
pub mod github;
pub mod input;
pub mod keys;
pub mod shell;
