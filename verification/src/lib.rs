//! Request authentication and multipart submission intake for a small
//! to-do service.
//!
//! The crate holds the decisions of the service: which requests carry a
//! usable bearer credential, which multipart submissions are complete, and
//! which attachments may be stored under which name. Network, file system
//! and database access stay with the caller, which feeds plain values in and
//! carries plain values out.

pub mod attachment;
pub mod date;
pub mod error;
pub mod handlers;
pub mod ids;
pub mod ingest;
pub mod login;
pub mod middleware;
pub mod models;
pub mod text;
pub mod token;
