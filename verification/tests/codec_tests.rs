use relay_core::address::{
    convert_address_from_bytes_to_string, convert_address_from_string_to_bytes, ChainType,
};
use relay_core::contract::{execute, instantiate, migrate, query, sudo};
use relay_core::encoding::{encode_packet, AckType, RequestMetaData};
use relay_core::msg::{ExecuteMsg, InstantiateMsg, MigrateMsg, QueryMsg, QueryResponse, RouterMsg, SudoMsg};
use relay_core::registry::ChainRegistry;
use relay_core::state::RelayState;
use relay_core::RelayError;

const INIT_ADDRESS: &str = "router1apapk9zfz3rp4x87fsm6h0s3zd0wlmkz0fx8tx";
const BRIDGE_ADDRESS: &str = "0xeedb3ab68d567a6cd6d19fa819fe77b9f8ed1538";

#[test]
fn evm_address_round_trips_from_bytes() {
    let bytes = hex::decode("eedb3ab68d567a6cd6d19fa819fe77b9f8ed1538").unwrap();
    let evm = ChainType::ChainTypeEvm.get_chain_code();
    let text = convert_address_from_bytes_to_string(&bytes, evm).unwrap();
    assert_eq!(text, BRIDGE_ADDRESS);
    let back = convert_address_from_string_to_bytes(&text, evm).unwrap();
    assert_eq!(back, bytes);
}

#[test]
fn evm_address_round_trips_from_text() {
    let evm = ChainType::ChainTypeEvm.get_chain_code();
    let bytes = convert_address_from_string_to_bytes(BRIDGE_ADDRESS, evm).unwrap();
    let text = convert_address_from_bytes_to_string(&bytes, evm).unwrap();
    assert_eq!(text, BRIDGE_ADDRESS);
}

#[test]
fn solana_address_needs_thirty_two_bytes() {
    let sol = ChainType::ChainTypeSolana.get_chain_code();
    let short = vec![0xabu8; 20];
    assert_eq!(
        convert_address_from_bytes_to_string(&short, sol).unwrap_err(),
        RelayError::InvalidAddress
    );
    let full = vec![0xabu8; 32];
    let text = convert_address_from_bytes_to_string(&full, sol).unwrap();
    assert_eq!(text.len(), 2 + 64);
    let back = convert_address_from_string_to_bytes(&text, sol).unwrap();
    assert_eq!(back, full);
}

#[test]
fn textual_chain_address_round_trips() {
    let cosmos = ChainType::ChainTypeCosmos.get_chain_code();
    let bytes = INIT_ADDRESS.as_bytes().to_vec();
    let text = convert_address_from_bytes_to_string(&bytes, cosmos).unwrap();
    assert_eq!(text, INIT_ADDRESS);
    let back = convert_address_from_string_to_bytes(&text, cosmos).unwrap();
    assert_eq!(back, bytes);
}

#[test]
fn textual_chain_rejects_invalid_utf8_sender() {
    let cosmos = ChainType::ChainTypeCosmos.get_chain_code();
    let bytes = vec![0xffu8, 0x00u8];
    assert_eq!(
        convert_address_from_bytes_to_string(&bytes, cosmos).unwrap_err(),
        RelayError::InvalidAddress
    );
}

#[test]
fn hex_markers_are_stripped_anywhere_and_uppercase_digits_accepted() {
    let evm = ChainType::ChainTypeEvm.get_chain_code();
    // the marker scan removes every `0x`/`0X` pair, wherever it stands
    let text = "0XEEDB3AB68D567A6CD6D19FA819FE77B9F8ED1538";
    let bytes = convert_address_from_string_to_bytes(text, evm).unwrap();
    assert_eq!(hex::encode(&bytes), "eedb3ab68d567a6cd6d19fa819fe77b9f8ed1538");
    // and a re-encoding is canonical lower-case
    let round = convert_address_from_bytes_to_string(&bytes, evm).unwrap();
    assert_eq!(round, BRIDGE_ADDRESS);
}

fn sample_metadata(dest_gas_price: u64) -> RequestMetaData {
    RequestMetaData {
        dest_gas_limit: 300000,
        dest_gas_price,
        ack_gas_limit: 300000,
        ack_gas_price: 10000000,
        relayer_fee: 0,
        ack_type: AckType::AckOnBoth,
        is_read_call: false,
        asm_address: Vec::new(),
    }
}

#[test]
fn metadata_encoding_is_deterministic() {
    let a = sample_metadata(55).get_abi_encoded_bytes();
    let b = sample_metadata(55).get_abi_encoded_bytes();
    assert_eq!(a, b);
    let p1 = encode_packet(&b"payload".to_vec(), &b"dest".to_vec());
    let p2 = encode_packet(&b"payload".to_vec(), &b"dest".to_vec());
    assert_eq!(p1, p2);
}

#[test]
fn metadata_encoding_golden_word_layout() {
    let bytes = sample_metadata(5).get_abi_encoded_bytes();
    let expected = format!(
        "{}{}{}{}{}{}{}{}{}{}",
        "0000000000000000000000000000000000000000000000000000000000000020",
        "00000000000000000000000000000000000000000000000000000000000493e0",
        "0000000000000000000000000000000000000000000000000000000000000005",
        "00000000000000000000000000000000000000000000000000000000000493e0",
        "0000000000000000000000000000000000000000000000000000000000989680",
        "0000000000000000000000000000000000000000000000000000000000000000",
        "0000000000000000000000000000000000000000000000000000000000000003",
        "0000000000000000000000000000000000000000000000000000000000000000",
        "0000000000000000000000000000000000000000000000000000000000000100",
        "0000000000000000000000000000000000000000000000000000000000000000",
    );
    assert_eq!(hex::encode(&bytes), expected);
}

#[test]
fn oracle_quote_reaches_the_metadata_and_fallback_is_zero() {
    let (mut state, _) = instantiate(
        String::from(INIT_ADDRESS),
        InstantiateMsg {
            bridge_address: String::from(BRIDGE_ADDRESS),
        },
    );
    let set = ExecuteMsg::SetChainType {
        chain_id: "80001".to_string(),
        chain_type: ChainType::ChainTypeEvm.get_chain_code(),
    };
    execute(&mut state, String::from(INIT_ADDRESS), set, None).unwrap();

    let inbound = |quote: Option<u64>, state: &mut RelayState| -> Vec<u8> {
        let msg = SudoMsg::HandleIReceive {
            request_sender: base64::decode("97MRmF0DyXm9Sfa9szch6J9ie6U=").unwrap(),
            src_chain_id: String::from("80001"),
            request_identifier: 2,
            payload: b"80001".to_vec(),
        };
        let response = sudo(state, msg, quote).unwrap();
        match response.messages.into_iter().next().unwrap() {
            RouterMsg::CrosschainCall {
                request_metadata, ..
            } => request_metadata,
        }
    };
    let with_quote = inbound(Some(77), &mut state);
    assert_eq!(with_quote, sample_metadata(77).get_abi_encoded_bytes());
    // the oracle being unavailable never fails the call; the price is zero
    let without_quote = inbound(None, &mut state);
    assert_eq!(without_quote, sample_metadata(0).get_abi_encoded_bytes());
}

fn state_with_version(name: &str, version: &str) -> RelayState {
    RelayState {
        operator: String::from(INIT_ADDRESS),
        bridge_contract: String::from(BRIDGE_ADDRESS),
        data: None,
        chain_types: ChainRegistry::new(),
        contract_name: String::from(name),
        contract_version: String::from(version),
    }
}

#[test]
fn migration_from_other_component_fails() {
    let mut state = state_with_version("some-other-contract", "0.0.1");
    let err = migrate(&mut state, MigrateMsg {}).unwrap_err();
    assert_eq!(err, RelayError::IncompatibleMigration);
    assert_eq!(state.contract_version, "0.0.1");
}

#[test]
fn migration_from_equal_or_newer_version_fails() {
    let mut state = state_with_version("hello-router-contract", "0.1.0");
    assert_eq!(
        migrate(&mut state, MigrateMsg {}).unwrap_err(),
        RelayError::IncompatibleMigration
    );
    let mut newer = state_with_version("hello-router-contract", "0.2.0");
    assert_eq!(
        migrate(&mut newer, MigrateMsg {}).unwrap_err(),
        RelayError::IncompatibleMigration
    );
    assert_eq!(newer.contract_version, "0.2.0");
}

#[test]
fn migration_from_older_version_succeeds() {
    let mut state = state_with_version("hello-router-contract", "0.0.9");
    let response = migrate(&mut state, MigrateMsg {}).unwrap();
    assert_eq!(response.messages.len(), 0);
    assert_eq!(state.contract_version, "0.1.0");
    assert_eq!(state.contract_name, "hello-router-contract");
}

#[test]
fn migration_compares_versions_lexicographically() {
    // the guard orders version strings character by character
    let mut older = state_with_version("hello-router-contract", "0.0.10");
    assert!(migrate(&mut older, MigrateMsg {}).is_ok());
    let mut newer = state_with_version("hello-router-contract", "0.10.0");
    assert_eq!(
        migrate(&mut newer, MigrateMsg {}).unwrap_err(),
        RelayError::IncompatibleMigration
    );
}

#[test]
fn queries_read_every_slot() {
    let (mut state, _) = instantiate(
        String::from(INIT_ADDRESS),
        InstantiateMsg {
            bridge_address: String::from(BRIDGE_ADDRESS),
        },
    );
    let set = ExecuteMsg::SetChainType {
        chain_id: "80001".to_string(),
        chain_type: 2,
    };
    execute(&mut state, String::from(INIT_ADDRESS), set, None).unwrap();

    match query(&state, QueryMsg::GetContractVersion {}) {
        QueryResponse::ContractVersion { contract, version } => {
            assert_eq!(contract, "hello-router-contract");
            assert_eq!(version, "0.1.0");
        }
        _ => panic!("wrong response variant"),
    }
    match query(&state, QueryMsg::FetchBridgeAddress {}) {
        QueryResponse::BridgeAddress { address } => assert_eq!(address, BRIDGE_ADDRESS),
        _ => panic!("wrong response variant"),
    }
    match query(&state, QueryMsg::FetchData {}) {
        QueryResponse::Data { data } => assert!(data.is_none()),
        _ => panic!("wrong response variant"),
    }
    match query(
        &state,
        QueryMsg::FetchChainType {
            chain_id: "80001".to_string(),
        },
    ) {
        QueryResponse::ChainType { chain_type } => assert_eq!(chain_type, Some(2)),
        _ => panic!("wrong response variant"),
    }
    match query(
        &state,
        QueryMsg::FetchChainType {
            chain_id: "1".to_string(),
        },
    ) {
        QueryResponse::ChainType { chain_type } => assert!(chain_type.is_none()),
        _ => panic!("wrong response variant"),
    }
}

#[test]
fn update_bridge_rejects_malformed_address() {
    let (mut state, _) = instantiate(
        String::from(INIT_ADDRESS),
        InstantiateMsg {
            bridge_address: String::from(BRIDGE_ADDRESS),
        },
    );
    // too short for an EVM-style destination address
    let msg = ExecuteMsg::UpdateBridgeContract {
        address: String::from("0x1234"),
        payload: b"123".to_vec(),
    };
    let err = execute(&mut state, String::from(INIT_ADDRESS), msg, None).unwrap_err();
    assert_eq!(err, RelayError::InvalidAddress);
    assert_eq!(
        relay_core::contract::fetch_bridge_address(&state),
        BRIDGE_ADDRESS
    );
}
