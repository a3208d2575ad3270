//! A verified handler for a Farcaster frame endpoint.
//!
//! The handler dispatches on the HTTP method of an inbound request and
//! renders the frame documents of the endpoint: the initial frame on GET,
//! the action-response frame on POST, and the rejection responses for
//! malformed payloads and unsupported methods. All response construction
//! is specified exactly, down to the characters of each body.

pub mod frame;
pub mod handler;
pub mod laws;
pub mod payload;
pub mod text;
