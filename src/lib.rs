//! Core of a desktop translation helper: text accounting and redaction,
//! the hotkey registry and trigger flow, and the decoding of the two
//! translation services' replies.

use vstd::prelude::*;

pub mod error;
pub mod gemini;
pub mod hotkey;
pub mod json;
pub mod text;
pub mod trigger;
pub mod web;

verus! {

} // verus!
