//! What the code generator reports.

pub mod err;
