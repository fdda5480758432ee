//! A multi-tenant service that hands HTTP requests to WebAssembly modules.
//!
//! * [`rt`] is the host side of the SDK bridge: the environment of one module instance and the
//!   host functions that move data across the linear-memory boundary.
//! * [`sdk`] is the guest side: the handles a module holds on the host's streaming resources.
//! * [`auth`] seals handshake state, issues and verifies bearer tokens.
//! * [`web`] validates the configuration, resolves routes and keeps the warm-instance pool.

pub mod auth;
pub mod rt;
pub mod sdk;
pub mod web;
