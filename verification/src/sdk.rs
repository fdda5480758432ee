//! Guest side of the SDK bridge: the handles that a module holds on the host's streaming
//! resources, and the pointers that it passes to the host.
//!
//! A handle keeps the access ID that the host issued and counts what is left unread. The
//! calls of the host's functions themselves are the caller's: a handle is told what the
//! host returned and keeps its count by it.

pub mod context;
pub mod interops;
pub mod io;
pub mod net;
pub mod vault;
