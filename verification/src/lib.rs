//! A static-site HTTP server core: a route table merger with first-registered-wins
//! precedence, and a static asset resolver with a single-page-application fallback.
//!
//! Everything here is a pure decision over plain values. Whatever touches the
//! network or the filesystem is done by the caller, who reports what it found.

pub mod asset;
pub mod decode;
pub mod json;
pub mod media;
pub mod merge;
pub mod path;
pub mod reply;
pub mod route;
pub mod server;
pub mod startup;
pub mod text;
