//! An in-memory store of todo records and the request handlers of a small
//! REST service over it.
//!
//! The handlers take the shared state as an ordinary value and give back the
//! status and payload to send; mutual exclusion and the wire format are left
//! to the program that serves them.

pub mod ambient;
pub mod handler;
pub mod laws;
pub mod model;
pub mod response;
pub mod server;
pub mod store;
