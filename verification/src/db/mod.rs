//! Storage back ends of the service.
pub mod free_list;
pub mod postgres;
pub mod redis_helper;
