//! Core logic of a cross-chain message relay contract: address-format
//! translation between chain types, binary encoding of request metadata and
//! request packets, a chain-type registry, a bridge endpoint store, and the
//! inbound-request / acknowledgment dispatch pipeline.
use vstd::prelude::*;

pub mod address;
pub mod contract;
pub mod encoding;
pub mod hexcodec;
pub mod msg;
pub mod registry;
pub mod state;
pub mod text;

verus! {

/// The failures the relay surfaces to its caller. Oracle unavailability is
/// deliberately absent: it is recovered locally with a default price.
#[derive(Clone, Copy, PartialEq, Eq, Structural, Debug)]
pub enum RelayError {
    /// An inbound request named a source chain with no registered chain type.
    ChainNotConfigured,
    /// An address did not fit the encoding scheme of its chain type.
    InvalidAddress,
    /// An inbound payload was not a valid encoding of a text payload.
    MalformedPayload,
    /// A migration was attempted from a different component or from an
    /// equal-or-newer version.
    IncompatibleMigration,
    /// An operator-only operation was invoked by a non-operator.
    Unauthorized,
}

} // verus!
