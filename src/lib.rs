//! A minimal static file server's request logic: resolving a request target
//! to a relative path, choosing how to answer, and rendering the generated
//! pages and log lines.

pub mod resolve;
pub mod listing;
pub mod handler;
pub mod laws;
