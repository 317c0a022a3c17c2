//! The protocol core: the entry points that initialize the relay, configure
//! it, run an inbound request through the full pipeline to one dispatch
//! instruction, record acknowledgments, guard migration, and answer queries.
//! Each operation relates its result and the state after the call exactly to
//! the state before it; a rejected call leaves the state untouched.
use crate::address::addr_bytes_ok;
use crate::address::addr_text_ok;
use crate::address::addr_to_bytes;
use crate::address::addr_to_text;
use crate::address::convert_address_from_bytes_to_string;
use crate::address::convert_address_from_string_to_bytes;
use crate::address::ChainType;
use crate::encoding::spec_encode_packet;
use crate::encoding::spec_encode_string_token;
use crate::encoding::abi_dyn_bytes;
use crate::encoding::abi_word;
use crate::encoding::encode_packet;
use crate::encoding::encode_string_token;
use crate::encoding::AckType;
use crate::encoding::RequestMetaData;
use crate::msg::attr_is;
use crate::msg::Attribute;
use crate::msg::Coin;
use crate::msg::Event;
use crate::msg::ExecuteMsg;
use crate::msg::InstantiateMsg;
use crate::msg::MigrateMsg;
use crate::msg::QueryMsg;
use crate::msg::QueryResponse;
use crate::msg::Response;
use crate::msg::RouterMsg;
use crate::msg::SudoMsg;
use crate::registry::ChainRegistry;
use crate::state::unchanged_but_data;
use crate::state::RelayState;
use crate::text::dec_chars;
use crate::text::lex_lt;
use crate::text::reverse_string;
use crate::text::str_lex_lt;
use crate::text::string_from_utf8;
use crate::text::u64_to_dec_string;
use crate::RelayError;
use vstd::prelude::*;
use vstd::string::StringExecFns;
use vstd::utf8::decode_utf8;
use vstd::utf8::valid_utf8;

verus! {

/// The gas limit granted to the destination call of every dispatch.
pub const DEST_GAS_LIMIT: u64 = 300000;

/// The gas limit granted to the acknowledgment of every dispatch.
pub const ACK_GAS_LIMIT: u64 = 300000;

/// The gas price paid for the acknowledgment of every dispatch.
pub const ACK_GAS_PRICE: u64 = 10000000;

/// The destination gas price substituted when the oracle has no quote.
pub const DEFAULT_GAS_PRICE: u64 = 0;

/// The chain identifier every dispatch is routed to.
pub fn dest_chain_id() -> (r: String)
    ensures
        r@ == "80001"@,
{
    String::from_str("80001")
}

/// The component name under which the version record is kept.
pub fn contract_name() -> (r: String)
    ensures
        r@ == "hello-router-contract"@,
{
    String::from_str("hello-router-contract")
}

/// The current component version.
pub fn contract_version() -> (r: String)
    ensures
        r@ == "0.1.0"@,
{
    String::from_str("0.1.0")
}

/// The oracle fallback policy: the quoted price, or the documented default
/// of zero when the oracle had none.
pub open spec fn quote_or_zero(gas_quote: Option<u64>) -> u64 {
    match gas_quote {
        Some(p) => p,
        None => DEFAULT_GAS_PRICE,
    }
}

/// The metadata bytes of every outbound dispatch: the protocol constants for
/// gas limits, acknowledgment gas and policy, no relayer fee, no read-only
/// flag, no source-module address — only the destination gas price varies.
pub open spec fn spec_outbound_metadata_bytes(gas_price: u64) -> Seq<u8> {
    abi_word(32) + abi_word(DEST_GAS_LIMIT as nat) + abi_word(gas_price as nat) + abi_word(
        ACK_GAS_LIMIT as nat,
    ) + abi_word(ACK_GAS_PRICE as nat) + abi_word(0) + abi_word(3) + abi_word(0) + abi_word(256)
        + abi_dyn_bytes(Seq::<u8>::empty())
}

/// Whether `m` is the one dispatch instruction the relay emits: a version-1
/// cross-chain call to the destination chain, with no route amount and no
/// route recipient, carrying exactly the given metadata and packet bytes.
pub open spec fn spec_crosschain_dispatch(m: RouterMsg, metadata: Seq<u8>, packet: Seq<u8>) -> bool {
    m matches RouterMsg::CrosschainCall {
        version,
        route_amount,
        route_recipient,
        dest_chain_id,
        request_metadata,
        request_packet,
    } && version == 1u64 && route_amount == 0u128 && route_recipient@ == Seq::<u8>::empty()
        && dest_chain_id@ == "80001"@ && request_metadata@ == metadata && request_packet@ == packet
}

/// The payload transform applied to each inbound request: the payload read
/// as UTF-8 text, reversed character by character.
pub open spec fn spec_transformed_payload(payload: Seq<u8>) -> Seq<char> {
    decode_utf8(payload).reverse()
}

/// Whether an inbound request is accepted: its source chain is configured,
/// its sender bytes fit that chain's address scheme, its payload is text,
/// and the configured bridge endpoint is a well-formed destination address.
pub open spec fn spec_inbound_accepts(
    pre: RelayState,
    sender: Seq<u8>,
    src_chain_id: Seq<char>,
    payload: Seq<u8>,
) -> bool {
    &&& pre.chain_types@.contains_key(src_chain_id)
    &&& addr_bytes_ok(sender, pre.chain_types@[src_chain_id])
    &&& valid_utf8(payload)
    &&& addr_text_ok(pre.bridge_contract@, 2)
}

/// The error reported for a rejected inbound request: the first failing
/// validation in pipeline order.
pub open spec fn spec_inbound_error(
    pre: RelayState,
    sender: Seq<u8>,
    src_chain_id: Seq<char>,
    payload: Seq<u8>,
) -> RelayError {
    if !pre.chain_types@.contains_key(src_chain_id) {
        RelayError::ChainNotConfigured
    } else if !addr_bytes_ok(sender, pre.chain_types@[src_chain_id]) {
        RelayError::InvalidAddress
    } else if !valid_utf8(payload) {
        RelayError::MalformedPayload
    } else {
        RelayError::InvalidAddress
    }
}

/// The full behavior of the inbound pipeline. A rejected request leaves the
/// state untouched and reports the first failing validation. An accepted
/// request stores the transformed payload — and changes nothing else — and
/// returns one dispatch instruction holding the metadata with the quoted (or
/// default) gas price and the packet built from the transformed payload and
/// the bridge endpoint's bytes, plus one audit event.
pub open spec fn spec_handle_inbound(
    pre: RelayState,
    post: RelayState,
    r: Result<Response, RelayError>,
    sender: Seq<u8>,
    src_chain_id: Seq<char>,
    request_identifier: u64,
    payload: Seq<u8>,
    gas_quote: Option<u64>,
) -> bool {
    &&& (r is Ok <==> spec_inbound_accepts(pre, sender, src_chain_id, payload))
    &&& (r is Err ==> post == pre && r->Err_0 == spec_inbound_error(
        pre,
        sender,
        src_chain_id,
        payload,
    ))
    &&& (r is Ok ==> {
        let ct = pre.chain_types@[src_chain_id];
        let transformed = spec_transformed_payload(payload);
        let resp = r->Ok_0;
        &&& unchanged_but_data(pre, post)
        &&& post.data matches Some(d) && d@ == transformed
        &&& resp.messages@.len() == 1
        &&& spec_crosschain_dispatch(
            resp.messages@[0],
            spec_outbound_metadata_bytes(quote_or_zero(gas_quote)),
            spec_encode_packet(
                spec_encode_string_token(transformed),
                addr_to_bytes(pre.bridge_contract@, 2),
            ),
        )
        &&& resp.events@.len() == 1
        &&& resp.events@[0].name@ == "in_bound_request"@
        &&& resp.events@[0].attributes@.len() == 5
        &&& attr_is(resp.events@[0].attributes@[0], "sender"@, addr_to_text(sender, ct))
        &&& attr_is(resp.events@[0].attributes@[1], "src_chain_type"@, dec_chars(ct as nat))
        &&& attr_is(resp.events@[0].attributes@[2], "src_chain_id"@, src_chain_id)
        &&& attr_is(
            resp.events@[0].attributes@[3],
            "request_identifier"@,
            dec_chars(request_identifier as nat),
        )
        &&& attr_is(resp.events@[0].attributes@[4], "payload"@, transformed)
        &&& resp.attributes@.len() == 3
        &&& attr_is(resp.attributes@[0], "sender"@, addr_to_text(sender, ct))
        &&& attr_is(resp.attributes@[1], "src_chain_type"@, dec_chars(ct as nat))
        &&& attr_is(resp.attributes@[2], "src_chain_id"@, src_chain_id)
    })
}

/// The full behavior of a bridge endpoint update. The new address must be a
/// well-formed destination address; then it replaces the endpoint wholesale
/// and one dispatch carrying the opaque payload targets the new endpoint.
pub open spec fn spec_update_bridge(
    pre: RelayState,
    post: RelayState,
    r: Result<Response, RelayError>,
    address: String,
    payload: Seq<u8>,
    gas_quote: Option<u64>,
) -> bool {
    &&& (r is Ok <==> addr_text_ok(address@, 2))
    &&& (r is Err ==> post == pre && r->Err_0 == RelayError::InvalidAddress)
    &&& (r is Ok ==> {
        let resp = r->Ok_0;
        &&& post.bridge_contract == address
        &&& post.operator == pre.operator
        &&& post.data == pre.data
        &&& post.chain_types@ == pre.chain_types@
        &&& post.contract_name == pre.contract_name
        &&& post.contract_version == pre.contract_version
        &&& resp.messages@.len() == 1
        &&& spec_crosschain_dispatch(
            resp.messages@[0],
            spec_outbound_metadata_bytes(quote_or_zero(gas_quote)),
            spec_encode_packet(payload, addr_to_bytes(address@, 2)),
        )
        &&& resp.events@.len() == 0
        &&& resp.attributes@.len() == 1
        &&& attr_is(resp.attributes@[0], "bridge_address"@, address@)
    })
}

/// The full behavior of a chain-type configuration: the registry gains (or
/// overwrites) the entry, nothing else changes, and no dispatch is emitted.
pub open spec fn spec_set_chain_type(
    pre: RelayState,
    post: RelayState,
    r: Response,
    chain_id: Seq<char>,
    chain_type: u64,
) -> bool {
    &&& post.chain_types@ == pre.chain_types@.insert(chain_id, chain_type)
    &&& post.operator == pre.operator
    &&& post.bridge_contract == pre.bridge_contract
    &&& post.data == pre.data
    &&& post.contract_name == pre.contract_name
    &&& post.contract_version == pre.contract_version
    &&& r.messages@.len() == 0
    &&& r.events@.len() == 0
    &&& r.attributes@.len() == 3
    &&& attr_is(r.attributes@[0], "action"@, "SetChainType"@)
    &&& attr_is(r.attributes@[1], "chain_id"@, chain_id)
    &&& attr_is(r.attributes@[2], "chain_type"@, dec_chars(chain_type as nat))
}

/// The receipt returned for an acknowledgment: no dispatch, no event, only
/// the acknowledged request identifier.
pub open spec fn spec_ack_receipt(r: Response, request_identifier: u64) -> bool {
    &&& r.messages@.len() == 0
    &&& r.events@.len() == 0
    &&& r.attributes@.len() == 1
    &&& attr_is(r.attributes@[0], "request_identifier"@, dec_chars(request_identifier as nat))
}

/// Whether migration is allowed from a stored version record: the component
/// name must match exactly and the stored version must be strictly older.
pub open spec fn spec_migration_allowed(stored_name: Seq<char>, stored_version: Seq<char>) -> bool {
    stored_name == "hello-router-contract"@ && lex_lt(stored_version, "0.1.0"@)
}

/// Law: oracle unavailability is recovered locally, never surfaced. With no
/// quote, the dispatched metadata is exactly the metadata with the
/// documented default price of zero. Whether a request is accepted does not
/// depend on the quote: `spec_inbound_accepts` takes no quote at all.
pub proof fn lemma_oracle_fallback(gas_quote: Option<u64>)
    requires
        gas_quote is None,
    ensures
        quote_or_zero(gas_quote) == DEFAULT_GAS_PRICE,
        spec_outbound_metadata_bytes(quote_or_zero(gas_quote)) == spec_outbound_metadata_bytes(0),
{
}

/// Builds one observability attribute.
fn attr(key: &str, value: String) -> (r: Attribute)
    ensures
        r.key@ == key@,
        r.value == value,
{
    Attribute { key: String::from_str(key), value }
}

/// Initializes the relay: records the caller as operator, stores the bridge
/// endpoint, starts with an empty registry and no stored payload, and writes
/// the version record. No dispatch is emitted.
pub fn instantiate(info_sender: String, msg: InstantiateMsg) -> (r: (RelayState, Response))
    ensures
        r.0.operator == info_sender,
        r.0.bridge_contract == msg.bridge_address,
        r.0.data is None,
        r.0.chain_types@ == Map::<Seq<char>, u64>::empty(),
        r.0.contract_name@ == "hello-router-contract"@,
        r.0.contract_version@ == "0.1.0"@,
        r.1.messages@.len() == 0,
        r.1.events@.len() == 0,
        r.1.attributes@.len() == 1,
        attr_is(r.1.attributes@[0], "action"@, "hello_router_init"@),
{
    let state = RelayState {
        operator: info_sender,
        bridge_contract: msg.bridge_address,
        data: None,
        chain_types: ChainRegistry::new(),
        contract_name: contract_name(),
        contract_version: contract_version(),
    };
    let mut response = Response::new();
    response.attributes.push(attr("action", String::from_str("hello_router_init")));
    (state, response)
}

/// Dispatches an operator-invoked configuration operation, rejecting any
/// other caller. `gas_quote` is the oracle's best-effort price for the
/// destination chain, or nothing when the oracle was unavailable.
pub fn execute(
    state: &mut RelayState,
    info_sender: String,
    msg: ExecuteMsg,
    gas_quote: Option<u64>,
) -> (r: Result<Response, RelayError>)
    ensures
        info_sender@ != old(state).operator@ ==> r is Err && r->Err_0 == RelayError::Unauthorized
            && *final(state) == *old(state),
        info_sender@ == old(state).operator@ ==> match msg {
            ExecuteMsg::UpdateBridgeContract { address, payload } => spec_update_bridge(
                *old(state),
                *final(state),
                r,
                address,
                payload@,
                gas_quote,
            ),
            ExecuteMsg::SetChainType { chain_id, chain_type } => r is Ok && spec_set_chain_type(
                *old(state),
                *final(state),
                r->Ok_0,
                chain_id@,
                chain_type,
            ),
        },
{
    if !(info_sender == state.operator) {
        return Err(RelayError::Unauthorized);
    }
    match msg {
        ExecuteMsg::UpdateBridgeContract { address, payload } => update_bridge_contract(
            state,
            address,
            payload,
            gas_quote,
        ),
        ExecuteMsg::SetChainType { chain_id, chain_type } => Ok(
            set_chain_type(state, chain_id, chain_type),
        ),
    }
}

/// Dispatches a callback from the trusted routing layer: an inbound request
/// runs the full pipeline; an acknowledgment is recorded as a receipt and
/// never re-triggers the pipeline nor touches the state.
pub fn sudo(state: &mut RelayState, msg: SudoMsg, gas_quote: Option<u64>) -> (r: Result<
    Response,
    RelayError,
>)
    ensures
        match msg {
            SudoMsg::HandleIReceive { request_sender, src_chain_id, request_identifier, payload } =>
                spec_handle_inbound(
                *old(state),
                *final(state),
                r,
                request_sender@,
                src_chain_id@,
                request_identifier,
                payload@,
                gas_quote,
            ),
            SudoMsg::HandleIAck { request_identifier, .. } => *final(state) == *old(state)
                && r is Ok && spec_ack_receipt(r->Ok_0, request_identifier),
        },
{
    match msg {
        SudoMsg::HandleIReceive { request_sender, src_chain_id, request_identifier, payload } => {
            handle_sudo_request(
                state,
                request_sender,
                src_chain_id,
                request_identifier,
                payload,
                gas_quote,
            )
        },
        SudoMsg::HandleIAck { request_identifier, exec_flag, exec_data, refund_amount } => {
            Ok(handle_sudo_ack(request_identifier, exec_flag, exec_data, refund_amount))
        },
    }
}

/// Runs one inbound request through the pipeline: resolve the source chain
/// type, decode the sender address, read and reverse the text payload,
/// validate the bridge endpoint, and only then persist the transformed
/// payload and assemble the dispatch instruction and audit event. Any
/// rejection aborts the call before the state is touched.
pub fn handle_sudo_request(
    state: &mut RelayState,
    request_sender: Vec<u8>,
    src_chain_id: String,
    request_identifier: u64,
    payload: Vec<u8>,
    gas_quote: Option<u64>,
) -> (r: Result<Response, RelayError>)
    ensures
        spec_handle_inbound(
            *old(state),
            *final(state),
            r,
            request_sender@,
            src_chain_id@,
            request_identifier,
            payload@,
            gas_quote,
        ),
{
    let src_chain_type: u64 = match state.chain_types.get(&src_chain_id) {
        Some(t) => t,
        None => {
            return Err(RelayError::ChainNotConfigured);
        },
    };
    let sender: String = match convert_address_from_bytes_to_string(
        &request_sender,
        src_chain_type,
    ) {
        Ok(address) => address,
        Err(err) => {
            return Err(err);
        },
    };
    let payload_string: String = match string_from_utf8(payload) {
        Some(s) => s,
        None => {
            return Err(RelayError::MalformedPayload);
        },
    };
    let reversed: String = reverse_string(payload_string.as_str());

    let dest_chain_type: u64 = ChainType::ChainTypeEvm.get_chain_code();
    let bridge_address: String = state.bridge_contract.clone();
    let dest_contract_slice: Vec<u8> = match convert_address_from_string_to_bytes(
        bridge_address.as_str(),
        dest_chain_type,
    ) {
        Ok(b) => b,
        Err(err) => {
            return Err(err);
        },
    };

    // every validation passed: persist the transformed payload
    state.data = Some(reversed.clone());

    let payload_token: Vec<u8> = encode_string_token(reversed.as_str());
    let gas_price: u64 = match gas_quote {
        Some(p) => p,
        None => DEFAULT_GAS_PRICE,
    };
    let request_metadata_fields = RequestMetaData {
        dest_gas_limit: DEST_GAS_LIMIT,
        dest_gas_price: gas_price,
        ack_gas_limit: ACK_GAS_LIMIT,
        ack_gas_price: ACK_GAS_PRICE,
        relayer_fee: 0,
        ack_type: AckType::AckOnBoth,
        is_read_call: false,
        asm_address: Vec::new(),
    };
    let request_metadata: Vec<u8> = request_metadata_fields.get_abi_encoded_bytes();
    let request_packet: Vec<u8> = encode_packet(&payload_token, &dest_contract_slice);
    proof {
        assert(request_metadata@ =~= spec_outbound_metadata_bytes(quote_or_zero(gas_quote)));
    }

    let mut event_attrs: Vec<Attribute> = Vec::new();
    event_attrs.push(attr("sender", sender.clone()));
    event_attrs.push(attr("src_chain_type", u64_to_dec_string(src_chain_type)));
    event_attrs.push(attr("src_chain_id", src_chain_id.clone()));
    event_attrs.push(attr("request_identifier", u64_to_dec_string(request_identifier)));
    event_attrs.push(attr("payload", reversed));
    let event = Event { name: String::from_str("in_bound_request"), attributes: event_attrs };

    let mut messages: Vec<RouterMsg> = Vec::new();
    messages.push(
        RouterMsg::CrosschainCall {
            version: 1,
            route_amount: 0,
            route_recipient: Vec::new(),
            dest_chain_id: dest_chain_id(),
            request_metadata,
            request_packet,
        },
    );
    let mut events: Vec<Event> = Vec::new();
    events.push(event);
    let mut attributes: Vec<Attribute> = Vec::new();
    attributes.push(attr("sender", sender));
    attributes.push(attr("src_chain_type", u64_to_dec_string(src_chain_type)));
    attributes.push(attr("src_chain_id", src_chain_id));
    Ok(Response { messages, events, attributes })
}

/// Records an acknowledgment notification. It always succeeds and never
/// mutates any stored slot: rejecting it would strand the routing layer's
/// retry logic with no path to resolution.
pub fn handle_sudo_ack(
    request_identifier: u64,
    exec_flag: bool,
    exec_data: Vec<u8>,
    refund_amount: Coin,
) -> (r: Response)
    ensures
        spec_ack_receipt(r, request_identifier),
{
    let _ = exec_flag;
    let _ = exec_data;
    let _ = refund_amount;
    let mut response = Response::new();
    response.attributes.push(attr("request_identifier", u64_to_dec_string(request_identifier)));
    response
}

/// Replaces the bridge endpoint, after validating that the new address is a
/// well-formed destination address, and dispatches the given opaque payload
/// to the new endpoint so the destination side learns of the rotation.
pub fn update_bridge_contract(
    state: &mut RelayState,
    address: String,
    payload: Vec<u8>,
    gas_quote: Option<u64>,
) -> (r: Result<Response, RelayError>)
    ensures
        spec_update_bridge(*old(state), *final(state), r, address, payload@, gas_quote),
{
    let dest_chain_type: u64 = ChainType::ChainTypeEvm.get_chain_code();
    let dest_contract_slice: Vec<u8> = match convert_address_from_string_to_bytes(
        address.as_str(),
        dest_chain_type,
    ) {
        Ok(b) => b,
        Err(err) => {
            return Err(err);
        },
    };
    state.bridge_contract = address.clone();

    let gas_price: u64 = match gas_quote {
        Some(p) => p,
        None => DEFAULT_GAS_PRICE,
    };
    let request_metadata_fields = RequestMetaData {
        dest_gas_limit: DEST_GAS_LIMIT,
        dest_gas_price: gas_price,
        ack_gas_limit: ACK_GAS_LIMIT,
        ack_gas_price: ACK_GAS_PRICE,
        relayer_fee: 0,
        ack_type: AckType::AckOnBoth,
        is_read_call: false,
        asm_address: Vec::new(),
    };
    let request_metadata: Vec<u8> = request_metadata_fields.get_abi_encoded_bytes();
    let request_packet: Vec<u8> = encode_packet(&payload, &dest_contract_slice);
    proof {
        assert(request_metadata@ =~= spec_outbound_metadata_bytes(quote_or_zero(gas_quote)));
    }

    let mut messages: Vec<RouterMsg> = Vec::new();
    messages.push(
        RouterMsg::CrosschainCall {
            version: 1,
            route_amount: 0,
            route_recipient: Vec::new(),
            dest_chain_id: dest_chain_id(),
            request_metadata,
            request_packet,
        },
    );
    let mut attributes: Vec<Attribute> = Vec::new();
    attributes.push(attr("bridge_address", address));
    Ok(Response { messages, events: Vec::new(), attributes })
}

/// Registers the chain type of a chain identifier: an idempotent overwrite.
pub fn set_chain_type(state: &mut RelayState, chain_id: String, chain_type: u64) -> (r: Response)
    ensures
        spec_set_chain_type(*old(state), *final(state), r, chain_id@, chain_type),
{
    state.chain_types.set(chain_id.clone(), chain_type);
    let mut attributes: Vec<Attribute> = Vec::new();
    attributes.push(attr("action", String::from_str("SetChainType")));
    attributes.push(attr("chain_id", chain_id));
    attributes.push(attr("chain_type", u64_to_dec_string(chain_type)));
    Response { messages: Vec::new(), events: Vec::new(), attributes }
}

/// Migrates the component: allowed only from the same component name at a
/// strictly older version; then the version record is rewritten in place
/// with no data transformation.
pub fn migrate(state: &mut RelayState, msg: MigrateMsg) -> (r: Result<Response, RelayError>)
    ensures
        r is Ok <==> spec_migration_allowed(
            old(state).contract_name@,
            old(state).contract_version@,
        ),
        r is Err ==> *final(state) == *old(state) && r->Err_0 == RelayError::IncompatibleMigration,
        r is Ok ==> {
            &&& final(state).contract_name@ == "hello-router-contract"@
            &&& final(state).contract_version@ == "0.1.0"@
            &&& final(state).operator == old(state).operator
            &&& final(state).bridge_contract == old(state).bridge_contract
            &&& final(state).data == old(state).data
            &&& final(state).chain_types@ == old(state).chain_types@
            &&& r->Ok_0.messages@.len() == 0
            &&& r->Ok_0.events@.len() == 0
            &&& r->Ok_0.attributes@.len() == 0
        },
{
    let _ = msg;
    let expected_name = contract_name();
    if !(state.contract_name == expected_name) {
        return Err(RelayError::IncompatibleMigration);
    }
    if !str_lex_lt(state.contract_version.as_str(), "0.1.0") {
        return Err(RelayError::IncompatibleMigration);
    }
    state.contract_name = contract_name();
    state.contract_version = contract_version();
    Ok(Response::new())
}

/// Answers a side-effect-free read.
pub fn query(state: &RelayState, msg: QueryMsg) -> (r: QueryResponse)
    ensures
        match msg {
            QueryMsg::GetContractVersion {  } => r matches QueryResponse::ContractVersion {
                contract,
                version,
            } && contract == state.contract_name && version == state.contract_version,
            QueryMsg::FetchData {  } => r matches QueryResponse::Data { data } && data
                == state.data,
            QueryMsg::FetchBridgeAddress {  } => r matches QueryResponse::BridgeAddress { address }
                && address == state.bridge_contract,
            QueryMsg::FetchChainType { chain_id } => r matches QueryResponse::ChainType {
                chain_type,
            } && chain_type == (if state.chain_types@.contains_key(chain_id@) {
                Some(state.chain_types@[chain_id@])
            } else {
                None::<u64>
            }),
        },
{
    match msg {
        QueryMsg::GetContractVersion {  } => QueryResponse::ContractVersion {
            contract: state.contract_name.clone(),
            version: state.contract_version.clone(),
        },
        QueryMsg::FetchData {  } => QueryResponse::Data { data: fetch_data(state) },
        QueryMsg::FetchBridgeAddress {  } => QueryResponse::BridgeAddress {
            address: fetch_bridge_address(state),
        },
        QueryMsg::FetchChainType { chain_id } => QueryResponse::ChainType {
            chain_type: fetch_chain_type(state, &chain_id),
        },
    }
}

/// Reads the stored payload slot.
pub fn fetch_data(state: &RelayState) -> (r: Option<String>)
    ensures
        r == state.data,
{
    match &state.data {
        Some(d) => Some(d.clone()),
        None => None,
    }
}

/// Reads the configured bridge endpoint.
pub fn fetch_bridge_address(state: &RelayState) -> (r: String)
    ensures
        r == state.bridge_contract,
{
    state.bridge_contract.clone()
}

/// Reads the chain type registered for a chain identifier.
pub fn fetch_chain_type(state: &RelayState, chain_id: &String) -> (r: Option<u64>)
    ensures
        r == if state.chain_types@.contains_key(chain_id@) {
            Some(state.chain_types@[chain_id@])
        } else {
            None::<u64>
        },
{
    state.chain_types.get(chain_id)
}

} // verus!
