//! What the front end says about the source text.

pub mod span;
