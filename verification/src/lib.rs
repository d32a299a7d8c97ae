//! Command bridge for a thread-affine network-configuration service.
//!
//! Many concurrent caller tasks submit commands to the one thread that owns
//! the foreign client handle; each caller gets back exactly one correlated,
//! typed response. The modules here hold the verified data model and the
//! decision logic of that bridge; the runtime plumbing (HTTP surface, the
//! dedicated worker thread and its event loop) lives outside the library.

pub mod bridge;
pub mod command;
pub mod fault;
pub mod handlers;
pub mod scan;
pub mod web;
