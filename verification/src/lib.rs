//! A small service core for running deferred work reliably inside a
//! long-lived process: a durable job queue with atomic claim semantics,
//! a dispatcher that executes jobs under a concurrency bound, and a
//! shutdown coordinator that joins every background task before exit —
//! together with the entities and boundary rules of the service built
//! around them.
//!
//! The queue provides at-least-once execution with lease-based crash
//! recovery, so job handlers are expected to be idempotent.

pub mod admin;
pub mod auth_flow;
pub mod dispatcher;
pub mod error;
pub mod job;
pub mod laws;
pub mod mailer;
pub mod register_token;
pub mod session;
pub mod shutdown;
pub mod store;
pub mod text;
pub mod todo;
pub mod user;
pub mod validation;
pub mod view_engine;
