//! A bounded zoom percentage for an image-size dialog.
//!
//! The dialog shows one piece of mutable state: a zoom percentage that starts
//! at 100, moves in steps of 10 under the "+" and "-" buttons, and never
//! leaves the range [10, 500]. This crate holds that state, the two guarded
//! button actions, and proofs that no sequence of clicks can drive the value
//! out of range.

pub mod zoom;
