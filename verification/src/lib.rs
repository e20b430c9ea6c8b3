//! The request-handling core of a static file server: given what a request
//! asks and what the hosted directory holds, it decides what is answered.
//!
//! The library reads no file and opens no socket. An [`ops::HttpHandler`]
//! is asked what to do with a request and answers with a [`model::Step`]:
//! either the response to send, or what it needs to know or have done
//! first, in which case the caller does that and comes back to the handler
//! the step names. A request is answered when the step is
//! [`model::Step::Respond`].
//!
//! - [`ops`] holds the handler and routes a request by its method.
//! - [`resolve`] turns the segments of a URL into a path, through symbolic
//!   links.
//! - [`range`] decides what a `Range` header asks of a file.
//! - [`encoding`] serves pages and files encoded, from the caches in
//!   [`cache`].
//! - [`dir`] and [`listing`] answer requests for directories.
//! - [`pages`] holds the error pages.
//! - [`ports`] finds a port to listen on.
//! - [`laws`] states what holds of all of these together.
//! - [`outside`] holds what is taken on trust from other crates.

pub mod cache;
pub mod dir;
pub mod encoding;
pub mod laws;
pub mod listing;
pub mod model;
pub mod ops;
pub mod outside;
pub mod pages;
pub mod ports;
pub mod range;
pub mod resolve;
pub mod status;
pub mod text;
