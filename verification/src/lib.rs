//! Tolerant schema-normalization layer for a media server's remote API.
//!
//! The upstream service returns loosely typed data: booleans written as
//! `0`/`1`/`true`/`""`, arrays written as comma-separated strings, Unix
//! timestamps, and a non-standard four-part version string, all wrapped in a
//! generic envelope element. This crate turns such raw documents into
//! strongly typed records under explicit, verified coercion rules.

pub mod coerce;
pub mod devices;
pub mod error;
pub mod library;
pub mod loader;
pub mod raw;
pub mod schema;
pub mod server;
pub mod text;
pub mod version;
pub mod wait;
