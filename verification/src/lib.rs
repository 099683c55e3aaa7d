//! A protocol data unit codec and request/response binding layer for a
//! master/slave register protocol: fixed function codes, big-endian wire
//! fields, address-range addressed register and coil operations with
//! bit-packed boolean responses, echo-verified single-value writes, and
//! the lifecycle of the asynchronous execution context handed across a
//! foreign boundary.
//!
//! Every decode path re-derives the expected size from the original
//! request, never trusts a length embedded in the response alone, and
//! treats any deviation as a typed protocol error rather than attempting
//! recovery.

pub mod codec;
pub mod cursor;
pub mod error;
pub mod function;
pub mod runtime;
pub mod service;
pub mod types;
