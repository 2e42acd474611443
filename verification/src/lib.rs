//! Decision logic of the ccplan desktop view: the colour tokens, the
//! navigation labels, toast notifications and their undo hand-off, keyboard
//! selection, the command bar, and the date keys that a refresh loads.
//!
//! Rendering with egui and the store/command plumbing stay outside; this
//! crate computes what they show and what they do next.
pub mod model;
pub mod palette;
pub mod text;
pub mod nav;
pub mod toast;
pub mod actions;
pub mod view;
pub mod clock;
pub mod dates;
pub mod laws;
