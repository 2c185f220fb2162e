//! Network identifiers: the 256-bit `XorName` and the per-message
//! `MessageId`.

use vstd::prelude::*;

verus! {

/// A 256-bit network identifier, stored as four 64-bit words.
///
/// Every routable actor (client, node, section) lives at such a name, and a
/// [`MessageId`] is a fresh random one.
#[derive(Clone, Copy, PartialEq, Eq, Hash, Debug)]
pub struct XorName {
    /// Least significant word.
    pub w0: u64,
    ///
    pub w1: u64,
    ///
    pub w2: u64,
    /// Most significant word.
    pub w3: u64,
}

/// Unique identifier of one logical message.
///
/// The network delivers messages redundantly along different routes, so the
/// same message usually arrives more than once at any given actor. Receivers
/// cache recently seen identifiers and silently drop a message whose
/// identifier is already in the cache: two envelopes with equal id are the
/// same logical message, regardless of payload equality.
#[derive(Clone, Copy, PartialEq, Eq, Hash, Debug)]
pub struct MessageId(pub XorName);

/// Relies on `rand::random`: returns four uniformly random words. Nothing is
/// promised of the result; callers treat every value as possible.
#[verifier::external_body]
fn random_words() -> (r: [u64; 4]) {
    rand::random()
}

impl MessageId {
    /// Generates a new `MessageId` with uniformly random content.
    ///
    /// Freshness (no collision with an id drawn elsewhere) is probabilistic
    /// and is not a promise of this function: nothing can be stated of a
    /// random value.
    pub fn new() -> Self {
        let w = random_words();
        MessageId(XorName { w0: w[0], w1: w[1], w2: w[2], w3: w[3] })
    }
}

} // verus!
