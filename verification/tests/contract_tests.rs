use relay_core::address::ChainType;
use relay_core::contract::{execute, fetch_data, instantiate, sudo};
use relay_core::msg::{Coin, ExecuteMsg, InstantiateMsg, RouterMsg, SudoMsg};
use relay_core::state::RelayState;
use relay_core::RelayError;

const INIT_ADDRESS: &str = "router1apapk9zfz3rp4x87fsm6h0s3zd0wlmkz0fx8tx";
const BRIDGE_ADDRESS: &str = "0xeedb3ab68d567a6cd6d19fa819fe77b9f8ed1538";

fn do_instantiate() -> RelayState {
    let instantiate_msg = InstantiateMsg {
        bridge_address: String::from(BRIDGE_ADDRESS),
    };
    let (state, res) = instantiate(String::from(INIT_ADDRESS), instantiate_msg);
    assert_eq!(0, res.messages.len());
    state
}

#[test]
fn test_basic() {
    let _state = do_instantiate();
}

#[test]
fn test_sudo_function() {
    let mut state = do_instantiate();
    let set_chain_type_msg = ExecuteMsg::SetChainType {
        chain_id: "80001".to_string(),
        chain_type: ChainType::ChainTypeEvm.get_chain_code(),
    };
    execute(&mut state, String::from(INIT_ADDRESS), set_chain_type_msg, None).unwrap();

    let test_string: String = String::from("80001");
    let encoded_string: String = base64::encode(test_string.clone());
    let msg = SudoMsg::HandleIReceive {
        request_sender: base64::decode("97MRmF0DyXm9Sfa9szch6J9ie6U=").unwrap(),
        src_chain_id: String::from("80001"),
        request_identifier: 2,
        payload: base64::decode(&encoded_string).unwrap(),
    };

    let response = sudo(&mut state, msg, None).unwrap();
    assert_eq!(response.messages.len(), 1);

    let data = fetch_data(&state).unwrap();
    assert_eq!(data, String::from("10008"));

    let message = response.messages.get(0).unwrap();
    match message {
        RouterMsg::CrosschainCall {
            version,
            route_amount,
            route_recipient,
            dest_chain_id,
            request_metadata,
            request_packet,
        } => {
            assert_eq!(*route_amount, 0u128);
            assert_eq!(hex::encode(route_recipient), "");

            assert_eq!(dest_chain_id, "80001");
            assert_eq!(*version, 1);
            assert_eq!(hex::encode(request_metadata), "000000000000000000000000000000000000000000000000000000000000002000000000000000000000000000000000000000000000000000000000000493e0000000000000000000000000000000000000000000000000000000000000000000000000000000000000000000000000000000000000000000000000000493e0000000000000000000000000000000000000000000000000000000000098968000000000000000000000000000000000000000000000000000000000000000000000000000000000000000000000000000000000000000000000000000000003000000000000000000000000000000000000000000000000000000000000000000000000000000000000000000000000000000000000000000000000000001000000000000000000000000000000000000000000000000000000000000000000");
            assert_eq!(hex::encode(request_packet), "000000000000000000000000000000000000000000000000000000000000004000000000000000000000000000000000000000000000000000000000000000c000000000000000000000000000000000000000000000000000000000000000600000000000000000000000000000000000000000000000000000000000000020000000000000000000000000000000000000000000000000000000000000000531303030380000000000000000000000000000000000000000000000000000000000000000000000000000000000000000000000000000000000000000000014eedb3ab68d567a6cd6d19fa819fe77b9f8ed1538000000000000000000000000");
        }
    }
}

#[test]
fn test_execute_update_bridge_address() {
    let mut state = do_instantiate();
    let test_string: String = String::from("123");
    let encoded_string: String = base64::encode(test_string.clone());
    let msg = ExecuteMsg::UpdateBridgeContract {
        address: String::from(BRIDGE_ADDRESS),
        payload: base64::decode(&encoded_string).unwrap(),
    };
    let response = execute(&mut state, String::from(INIT_ADDRESS), msg, None).unwrap();
    assert_eq!(response.messages.len(), 1);

    let message = response.messages.get(0).unwrap();
    match message {
        RouterMsg::CrosschainCall {
            version,
            route_amount,
            route_recipient,
            dest_chain_id,
            request_metadata,
            request_packet,
        } => {
            assert_eq!(*route_amount, 0u128);
            assert_eq!(hex::encode(route_recipient), "");

            assert_eq!(dest_chain_id, "80001");
            assert_eq!(*version, 1);
            assert_eq!(hex::encode(request_metadata), "000000000000000000000000000000000000000000000000000000000000002000000000000000000000000000000000000000000000000000000000000493e0000000000000000000000000000000000000000000000000000000000000000000000000000000000000000000000000000000000000000000000000000493e0000000000000000000000000000000000000000000000000000000000098968000000000000000000000000000000000000000000000000000000000000000000000000000000000000000000000000000000000000000000000000000000003000000000000000000000000000000000000000000000000000000000000000000000000000000000000000000000000000000000000000000000000000001000000000000000000000000000000000000000000000000000000000000000000");
            assert_eq!(hex::encode(request_packet), "00000000000000000000000000000000000000000000000000000000000000400000000000000000000000000000000000000000000000000000000000000080000000000000000000000000000000000000000000000000000000000000000331323300000000000000000000000000000000000000000000000000000000000000000000000000000000000000000000000000000000000000000000000014eedb3ab68d567a6cd6d19fa819fe77b9f8ed1538000000000000000000000000");
        }
    }
}

#[test]
fn unconfigured_chain_is_rejected_without_mutation() {
    let mut state = do_instantiate();
    let msg = SudoMsg::HandleIReceive {
        request_sender: base64::decode("97MRmF0DyXm9Sfa9szch6J9ie6U=").unwrap(),
        src_chain_id: String::from("99999"),
        request_identifier: 1,
        payload: b"80001".to_vec(),
    };
    let err = sudo(&mut state, msg, None).unwrap_err();
    assert_eq!(err, RelayError::ChainNotConfigured);
    assert!(fetch_data(&state).is_none());
    assert_eq!(
        relay_core::contract::fetch_bridge_address(&state),
        BRIDGE_ADDRESS
    );
}

#[test]
fn invalid_sender_address_is_rejected() {
    let mut state = do_instantiate();
    let set = ExecuteMsg::SetChainType {
        chain_id: "80001".to_string(),
        chain_type: ChainType::ChainTypeEvm.get_chain_code(),
    };
    execute(&mut state, String::from(INIT_ADDRESS), set, None).unwrap();
    // five bytes cannot be an EVM-style sender address
    let msg = SudoMsg::HandleIReceive {
        request_sender: vec![1, 2, 3, 4, 5],
        src_chain_id: String::from("80001"),
        request_identifier: 1,
        payload: b"80001".to_vec(),
    };
    let err = sudo(&mut state, msg, None).unwrap_err();
    assert_eq!(err, RelayError::InvalidAddress);
    assert!(fetch_data(&state).is_none());
}

#[test]
fn malformed_payload_is_rejected() {
    let mut state = do_instantiate();
    let set = ExecuteMsg::SetChainType {
        chain_id: "80001".to_string(),
        chain_type: ChainType::ChainTypeEvm.get_chain_code(),
    };
    execute(&mut state, String::from(INIT_ADDRESS), set, None).unwrap();
    let msg = SudoMsg::HandleIReceive {
        request_sender: base64::decode("97MRmF0DyXm9Sfa9szch6J9ie6U=").unwrap(),
        src_chain_id: String::from("80001"),
        request_identifier: 1,
        payload: vec![0xff, 0xfe],
    };
    let err = sudo(&mut state, msg, None).unwrap_err();
    assert_eq!(err, RelayError::MalformedPayload);
    assert!(fetch_data(&state).is_none());
}

#[test]
fn acknowledgment_always_succeeds_and_mutates_nothing() {
    let mut state = do_instantiate();
    let set = ExecuteMsg::SetChainType {
        chain_id: "80001".to_string(),
        chain_type: ChainType::ChainTypeEvm.get_chain_code(),
    };
    execute(&mut state, String::from(INIT_ADDRESS), set, None).unwrap();
    let inbound = SudoMsg::HandleIReceive {
        request_sender: base64::decode("97MRmF0DyXm9Sfa9szch6J9ie6U=").unwrap(),
        src_chain_id: String::from("80001"),
        request_identifier: 2,
        payload: b"80001".to_vec(),
    };
    sudo(&mut state, inbound, None).unwrap();

    let ack = SudoMsg::HandleIAck {
        request_identifier: 424242,
        exec_flag: false,
        exec_data: vec![7, 0, 7],
        refund_amount: Coin {
            denom: String::from("route"),
            amount: 99,
        },
    };
    let receipt = sudo(&mut state, ack, None).unwrap();
    assert_eq!(receipt.messages.len(), 0);
    assert_eq!(receipt.attributes.len(), 1);
    assert_eq!(receipt.attributes[0].key, "request_identifier");
    assert_eq!(receipt.attributes[0].value, "424242");
    // neither the stored payload nor the bridge endpoint moved
    assert_eq!(fetch_data(&state).unwrap(), "10008");
    assert_eq!(
        relay_core::contract::fetch_bridge_address(&state),
        BRIDGE_ADDRESS
    );
}

#[test]
fn non_operator_is_rejected() {
    let mut state = do_instantiate();
    let msg = ExecuteMsg::SetChainType {
        chain_id: "80001".to_string(),
        chain_type: 2,
    };
    let err = execute(&mut state, String::from("someone-else"), msg, None).unwrap_err();
    assert_eq!(err, RelayError::Unauthorized);
    let q = relay_core::contract::fetch_chain_type(&state, &"80001".to_string());
    assert!(q.is_none());
}

#[test]
fn set_chain_type_is_idempotent() {
    let mut state = do_instantiate();
    let msg = ExecuteMsg::SetChainType {
        chain_id: "80001".to_string(),
        chain_type: 2,
    };
    execute(&mut state, String::from(INIT_ADDRESS), msg, None).unwrap();
    let once = relay_core::contract::fetch_chain_type(&state, &"80001".to_string());
    let msg_again = ExecuteMsg::SetChainType {
        chain_id: "80001".to_string(),
        chain_type: 2,
    };
    execute(&mut state, String::from(INIT_ADDRESS), msg_again, None).unwrap();
    let twice = relay_core::contract::fetch_chain_type(&state, &"80001".to_string());
    assert_eq!(once, Some(2));
    assert_eq!(twice, Some(2));
    // other observables are untouched as well
    assert_eq!(
        relay_core::contract::fetch_bridge_address(&state),
        BRIDGE_ADDRESS
    );
    assert!(fetch_data(&state).is_none());
}

#[test]
fn empty_payload_reverses_to_empty() {
    let mut state = do_instantiate();
    let set = ExecuteMsg::SetChainType {
        chain_id: "80001".to_string(),
        chain_type: ChainType::ChainTypeEvm.get_chain_code(),
    };
    execute(&mut state, String::from(INIT_ADDRESS), set, None).unwrap();
    let msg = SudoMsg::HandleIReceive {
        request_sender: base64::decode("97MRmF0DyXm9Sfa9szch6J9ie6U=").unwrap(),
        src_chain_id: String::from("80001"),
        request_identifier: 3,
        payload: Vec::new(),
    };
    let response = sudo(&mut state, msg, None).unwrap();
    assert_eq!(response.messages.len(), 1);
    assert_eq!(fetch_data(&state).unwrap(), "");
}
