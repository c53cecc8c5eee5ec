//! Bounded pool of reusable connections to a key-value store, together with
//! the configuration and request rules of the service that owns it.
pub mod config;
pub mod db;
pub mod middleware;
pub mod parse;
pub mod routes;
pub mod text;
