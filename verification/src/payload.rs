//! The data carried by a POST action and the outcomes of deserializing it.

use vstd::prelude::*;

verus! {

/// The portion of an inbound action payload that has not been
/// cryptographically verified. It carries at least the acting user's
/// numeric identifier.
#[derive(Clone, Copy, Debug)]
pub struct UntrustedData {
    pub fid: u64,
}

/// A deserialized POST body: a frame action signed by a user, of which
/// only the untrusted portion is consumed here.
#[derive(Clone, Copy, Debug)]
pub struct FrameActionPayload {
    pub untrusted_data: UntrustedData,
}

/// What deserializing a POST body yielded. Deserialization happens at the
/// transport edge; the handler only dispatches on its outcome.
#[derive(Clone, Copy, Debug)]
pub enum PayloadParse {
    /// The body did not parse as a frame action payload.
    Malformed,
    /// The body parsed but carried no payload (an empty body).
    Empty,
    /// The body parsed into a payload.
    Parsed(FrameActionPayload),
}

} // verus!
