//! Message envelope and addressing layer for a peer-to-peer data network.
//!
//! A logical request, response or event is a [`message::Message`]; one in
//! flight, together with its provenance chain, is an
//! [`envelope::MsgEnvelope`]. Each relay that forwards an envelope appends
//! itself to the envelope's `proxies`, and a terminal response carries the
//! identifier of the message that caused it (`correlation_id`) together with
//! the original requester's address, so replies can be routed back without
//! any per-request state in the delivery fabric.

use vstd::prelude::*;

pub mod auth;
pub mod cmd;
pub mod codec;
pub mod envelope;
pub mod errors;
pub mod event;
pub mod ids;
pub mod message;
pub mod network;
pub mod payload;
pub mod response;
pub mod sender;

verus! {

/// Relies on std's `Clone` for `Result`, which vstd gives no specification:
/// the derived `Clone` impls of the result-bearing types here call it. The
/// one fact stated is that cloning keeps the variant, which is how the std
/// library documents the impl (`Ok` clones to `Ok`, `Err` to `Err`).
pub assume_specification<T: Clone, E: Clone>[ <Result<T, E> as Clone>::clone ](
    r: &Result<T, E>,
) -> (res: Result<T, E>)
    ensures
        res is Ok <==> r is Ok,
;

} // verus!
