//! The rules of the request handlers: what they compute between reading a
//! request and writing the answer.
pub mod auth;
pub mod health;
pub mod preflight;
pub mod timezone;
