//! A small, verified core for a todo HTTP service: the data model, the
//! uniform error envelope, JSON encoding and decoding of the bodies the
//! service exchanges, the route table with its documentation metadata, the
//! OpenAPI document built from that table, and the request dispatcher.
//!
//! Everything that touches a socket stays outside this crate; the functions
//! here go from plain values (method, path, body bytes, store state) to plain
//! values (status, content type, body bytes).

pub mod text;
pub mod json;
pub mod error;
pub mod models;
pub mod store;
pub mod routes;
pub mod todo;
pub mod openapi;
pub mod dispatch;
