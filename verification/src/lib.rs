//! Widget-planning rules for a reflection-style property inspector.
//!
//! An inspector shows a value of a known type as an interactive widget that
//! both displays and mutates it, with per-type display options: numeric
//! ranges, drag speed, prefixes and suffixes, multiline text editing, and an
//! optional alpha channel for colors. The modules here hold the rules that
//! decide, from a value and its options, how the widget is configured and how
//! an interaction result is applied back to the value. Drawing is left to a
//! rendering layer; everything here is plain data in, plain data out.

pub mod attributes;
pub mod color;
pub mod list;
pub mod number;
pub mod text;
