//! Sidecar resolution and invocation core.
//!
//! A desktop shell delegates its real work (authentication, session listing,
//! batch generation, email delivery) to an external worker executable, the
//! "sidecar". This crate holds the logic of that boundary: locating the
//! sidecar executable across packaging layouts, building the argument vector
//! for an invocation, interpreting the captured process output under a
//! per-operation exit policy, and persisting the small local state
//! (credentials, email settings) the shell and the sidecar share.
//!
//! All process spawning and file-system access happens outside this crate;
//! the functions here take plain values (candidate paths with their probed
//! existence, captured stdout/stderr and exit status, file contents) and
//! return plain values, so every decision is verified.

pub mod dispatch;
pub mod errors;
pub mod json;
pub mod locator;
pub mod ops;
pub mod store;

pub use errors::AppError;
