//! A password generator built around a constrained random-candidate
//! synthesizer, a rejection-sampling acceptance filter, and an integer
//! entropy/length table.
//!
//! The generator draws fixed-length candidates from restricted character
//! classes (visually confusable characters are excluded), places block
//! separators deterministically in long passwords, and keeps redrawing until
//! a candidate passes a battery of structural checks and a strength-oracle
//! policy.

pub mod chars;
pub mod checks;
pub mod entropy;
pub mod generate;
pub mod oracle;
pub mod synth;
