//! Curve fitting by mean-squared-error minimization: a catalogue of model
//! shapes, the decision logic of the descent methods that fit them, and small
//! text helpers for presenting results.

pub mod data;
pub mod functions;
pub mod minimizers;
pub mod text;

pub use text::{format_duration, format_seconds, prettify_list, Label};
