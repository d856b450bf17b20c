//! Typed objects and requests of the TDLib JSON protocol, with a verified
//! codec between them and JSON documents.
//!
//! - [`json`] holds the JSON tree and its model.
//! - [`num`] reads and writes wide integers as decimal text.
//! - [`codec`] defines what it means to encode and to decode, and the
//!   laws that every type of the protocol is proved to obey.
//! - [`types`] holds the objects, among them the envelope
//!   [`types::Response`].
//! - [`methods`] holds the requests, each bound to the type of its answer.

#![allow(unused_imports)]

pub mod json;
pub mod text;
pub mod num;
pub mod error;
pub mod codec;
pub mod types;
pub mod methods;
