//! Rules applied to every request and answer.
pub mod cors;
