//! The relay's owned state: the four persistent slots — stored payload,
//! bridge endpoint, chain-type registry, and version record — plus the
//! operator identity that guards configuration. The host serializes calls,
//! so one call runs to completion on this state before the next begins.
use crate::registry::ChainRegistry;
use vstd::prelude::*;

verus! {

/// The state owned by the protocol core and passed into every operation.
pub struct RelayState {
    /// The only identity allowed to invoke configuration operations.
    pub operator: String,
    /// The currently configured destination bridge contract address,
    /// replaced wholesale on update.
    pub bridge_contract: String,
    /// The transformed payload of the last successfully processed inbound
    /// request; a single slot, not a log.
    pub data: Option<String>,
    /// The chain-type registry.
    pub chain_types: ChainRegistry,
    /// The stored component name of the version record.
    pub contract_name: String,
    /// The stored component version of the version record.
    pub contract_version: String,
}

/// The parts of the state an inbound request may not touch: everything but
/// the stored payload.
pub open spec fn unchanged_but_data(pre: RelayState, post: RelayState) -> bool {
    &&& post.operator == pre.operator
    &&& post.bridge_contract == pre.bridge_contract
    &&& post.chain_types@ == pre.chain_types@
    &&& post.contract_name == pre.contract_name
    &&& post.contract_version == pre.contract_version
}

} // verus!
