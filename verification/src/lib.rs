//! A verified core for a local static-file server: an authorization
//! record of which directory roots the host process may read,
//! a lifecycle manager that owns at most one running server instance,
//! and the pure request/response logic the per-connection tasks run.
//!
//! All socket, filesystem and host-policy work is performed by the
//! surrounding application; this crate holds the decisions and proves
//! them against their contracts.

pub mod access;
pub mod lifecycle;
pub mod request;
pub mod response;
pub mod serve;
pub mod url;
