//! A small HTTP client layer: URL resolution, request preparation, response
//! inspection, multipart forms and a prefixing structured logger, with the
//! decisions each of them makes stated as contracts and proved by Verus.
//!
//! Sending requests and emitting log events are the caller's I/O; this crate
//! computes what is sent and what is logged.

pub mod outside;
pub mod error;
pub mod method;
pub mod client;
pub mod multipart;
pub mod logger;

pub use client::{Client, Options, Request, RequestPlan, Response};
pub use error::Error;
pub use logger::{Level, LogRecord, Logger};
pub use method::Method;
pub use multipart::{Form, Part};
