//! The boundary messages of the relay: what initializes it, what operators
//! send, what the routing layer delivers, what can be queried, and the
//! response values handed back, including the outbound dispatch instruction.
use vstd::prelude::*;

verus! {

/// Initializes the relay with the bridge endpoint address.
#[derive(Debug)]
pub struct InstantiateMsg {
    pub bridge_address: String,
}

/// An operator-invoked configuration operation.
#[derive(Debug)]
pub enum ExecuteMsg {
    /// Replaces the bridge endpoint and dispatches the given opaque payload
    /// to the new endpoint.
    UpdateBridgeContract { address: String, payload: Vec<u8> },
    /// Registers the chain type of a chain identifier.
    SetChainType { chain_id: String, chain_type: u64 },
}

/// A request to migrate the component to the current version. It carries no
/// data; the guard reads the stored version record.
#[derive(Debug)]
pub struct MigrateMsg {}

/// A side-effect-free read.
#[derive(Debug)]
pub enum QueryMsg {
    GetContractVersion {},
    FetchData {},
    FetchBridgeAddress {},
    FetchChainType { chain_id: String },
}

/// A coin amount with its denomination, as acknowledgment refunds carry it.
#[derive(Debug)]
pub struct Coin {
    pub denom: String,
    pub amount: u128,
}

/// A callback from the trusted routing layer: either an inbound cross-chain
/// request or the acknowledgment of an earlier outbound dispatch.
#[derive(Debug)]
pub enum SudoMsg {
    HandleIReceive {
        request_sender: Vec<u8>,
        src_chain_id: String,
        request_identifier: u64,
        payload: Vec<u8>,
    },
    HandleIAck {
        request_identifier: u64,
        exec_flag: bool,
        exec_data: Vec<u8>,
        refund_amount: Coin,
    },
}

/// The answer to a query.
#[derive(Debug)]
pub enum QueryResponse {
    ContractVersion { contract: String, version: String },
    Data { data: Option<String> },
    BridgeAddress { address: String },
    ChainType { chain_type: Option<u64> },
}

/// One key/value pair of observability data attached to a response or event.
#[derive(Debug)]
pub struct Attribute {
    pub key: String,
    pub value: String,
}

/// An audit event emitted alongside a response.
#[derive(Debug)]
pub struct Event {
    pub name: String,
    pub attributes: Vec<Attribute>,
}

/// An instruction handed to the routing layer for relaying to a destination
/// chain.
#[derive(Debug)]
pub enum RouterMsg {
    CrosschainCall {
        version: u64,
        route_amount: u128,
        route_recipient: Vec<u8>,
        dest_chain_id: String,
        request_metadata: Vec<u8>,
        request_packet: Vec<u8>,
    },
}

/// What an operation returns to the host: zero or more dispatch
/// instructions, audit events, and response attributes.
#[derive(Debug)]
pub struct Response {
    pub messages: Vec<RouterMsg>,
    pub events: Vec<Event>,
    pub attributes: Vec<Attribute>,
}

impl Response {
    /// An empty response: no dispatch, no event, no attribute.
    pub fn new() -> (r: Response)
        ensures
            r.messages@ == Seq::<RouterMsg>::empty(),
            r.events@ == Seq::<Event>::empty(),
            r.attributes@ == Seq::<Attribute>::empty(),
    {
        Response { messages: Vec::new(), events: Vec::new(), attributes: Vec::new() }
    }
}

/// Whether an attribute holds exactly the given key and value.
pub open spec fn attr_is(a: Attribute, key: Seq<char>, value: Seq<char>) -> bool {
    a.key@ == key && a.value@ == value
}

} // verus!
