//! A verified core for a multi-step intake-form backend: drafts are created,
//! patched with partial form data, and finally submitted.
//!
//! The library owns the draft lifecycle (create, get, patch, submit), the
//! conversion rule between arbitrary JSON payloads and the stored document
//! shape, and the resume-URL construction. Persistence and HTTP plumbing live
//! outside it and hand plain values in and out.

pub mod json;
pub mod model;
pub mod store;
pub mod service;
pub mod laws;
