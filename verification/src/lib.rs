//! Core logic of a small desktop password-generator utility: a window with a
//! read-only text field showing a freshly generated password and buttons to
//! regenerate it, copy it to the clipboard, and show an About dialog.
//!
//! This crate holds everything that can be stated and proved: the password
//! configuration model and its validity predicate, generation through the
//! `passwords` crate, the event-to-action step function of the UI shell, and
//! the exact texts the shell displays. The GUI toolkit calls themselves live
//! in the surrounding application.

pub mod config;
pub mod generator;
pub mod shell;
pub mod text;
