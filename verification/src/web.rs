//! The HTTP frontend: its configuration, the routes, the pool of warm instances, and how
//! what a module made of a request becomes an HTTP response.

pub mod config;
pub mod service;
