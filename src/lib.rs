//! A small HTTP/1.x message engine and static-route dispatcher.
//!
//! Raw request text is decoded into a [`request::Request`], resolved against a
//! route table keyed by method and path, turned into a [`response::Response`]
//! and encoded back to wire text.

pub mod error;
pub mod text;
pub mod method;
pub mod headers;
pub mod status;
pub mod version;
pub mod message;
pub mod request;
pub mod response;
pub mod config;
pub mod server;
pub mod logging;
pub mod options;
pub mod pages;
pub mod directory;
