//! Core logic of a small scanned-page viewer: an append-only page list
//! backing a list view, a selection-to-preview binding, a registry of the
//! window's named commands, and the application lifecycle state machine.
//!
//! The widget toolkit itself (window construction, dialogs, rendering) is
//! driven by an unverified shell; this crate holds every decision that shell
//! makes, as verified functions from plain values to plain values.

pub mod actions;
pub mod controller;
pub mod page_list;
pub mod text;
