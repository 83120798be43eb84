use kernel_bridge::chainstate::{
    parse_chain_type, select_block, ReadBlockParams, Selection, SetupParams,
};
use kernel_bridge::engine::{BlockSelector, ChainType, VerifyFlags};
use kernel_bridge::handler::{parse_method, Method};
use kernel_bridge::protocol::{
    ErrorObj, Params, Payload, Response, ERR_INTERNAL, ERR_INVALID_PARAMS, ERR_INVALID_REQUEST,
    ERR_KERNEL, ERR_METHOD_NOT_FOUND, ERR_SCRIPT_VERIFY, UNEXPECTED_REPLY, WRONG_SHAPE,
};
use kernel_bridge::script_pubkey::{parse_flags, VerifyParams};
use kernel_bridge::text::{decimal_string, join, same_text};

fn verify_params() -> VerifyParams {
    VerifyParams {
        script_pubkey_hex: String::from("51"),
        amount: 5000,
        tx_hex: String::from("0100"),
        input_index: 0,
        flags: String::from("VERIFY_ALL"),
    }
}

#[test]
fn success_response_carries_a_result_and_no_error() {
    let response = Response::success(String::from("a1"), Payload::Verified { valid: true });
    assert_eq!(response.id, "a1");
    assert_eq!(response.result, Some(Payload::Verified { valid: true }));
    assert_eq!(response.error, None);
}

#[test]
fn error_response_carries_an_error_and_no_result() {
    let response = Response::error(String::from("a2"), ERR_KERNEL, String::from("Block not found"));
    assert_eq!(response.id, "a2");
    assert_eq!(response.result, None);
    assert_eq!(
        response.error,
        Some(ErrorObj {
            code: String::from("KERNEL_ERROR"),
            message: String::from("Block not found"),
        })
    );
}

#[test]
fn error_response_takes_any_code_text_as_it_is() {
    let response = Response::error(String::new(), "SOMETHING", String::new());
    let error = response.error.unwrap();
    assert_eq!(error.code, "SOMETHING");
    assert_eq!(error.message, "");
    assert_eq!(response.id, "");
}

#[test]
fn fault_response_is_an_internal_error_under_the_request_identifier() {
    let response = Response::fault(String::from("q7"), "index out of bounds");
    assert_eq!(response.id, "q7");
    assert_eq!(response.result, None);
    let error = response.error.unwrap();
    assert_eq!(error.code, "INTERNAL_ERROR");
    assert_eq!(error.message, "Internal error (panic): index out of bounds");
}

#[test]
fn error_codes_have_their_wire_names() {
    assert_eq!(ERR_INVALID_REQUEST, "INVALID_REQUEST");
    assert_eq!(ERR_METHOD_NOT_FOUND, "METHOD_NOT_FOUND");
    assert_eq!(ERR_INVALID_PARAMS, "INVALID_PARAMS");
    assert_eq!(ERR_KERNEL, "KERNEL_ERROR");
    assert_eq!(ERR_SCRIPT_VERIFY, "SCRIPT_VERIFY_ERROR");
    assert_eq!(ERR_INTERNAL, "INTERNAL_ERROR");
}

#[test]
fn error_codes_are_pairwise_different() {
    let codes = [
        ERR_INVALID_REQUEST,
        ERR_METHOD_NOT_FOUND,
        ERR_INVALID_PARAMS,
        ERR_KERNEL,
        ERR_SCRIPT_VERIFY,
        ERR_INTERNAL,
    ];
    for i in 0..codes.len() {
        for j in 0..codes.len() {
            if i != j {
                assert_ne!(codes[i], codes[j]);
            }
        }
    }
}

#[test]
fn params_are_handed_on_in_their_own_shape() {
    let setup = SetupParams { chain_type: String::from("regtest"), blocks_hex: vec![] };
    assert_eq!(Params::Setup(setup.clone()).into_setup(), Ok(setup));
    let read = ReadBlockParams { height: Some(3), tip: None };
    assert_eq!(Params::ReadBlock(read).into_read_block(), Ok(read));
    assert_eq!(Params::Verify(verify_params()).into_verify(), Ok(verify_params()));
}

#[test]
fn params_of_another_operation_are_refused() {
    let setup = SetupParams { chain_type: String::from("regtest"), blocks_hex: vec![] };
    assert_eq!(Params::Verify(verify_params()).into_setup(), Err(String::from(WRONG_SHAPE)));
    assert_eq!(Params::Setup(setup.clone()).into_read_block(), Err(String::from(WRONG_SHAPE)));
    assert_eq!(Params::Setup(setup).into_verify(), Err(String::from(WRONG_SHAPE)));
    assert_eq!(Params::Unread.into_setup(), Err(String::from(WRONG_SHAPE)));
    assert_eq!(Params::Unread.into_read_block(), Err(String::from(WRONG_SHAPE)));
    assert_eq!(Params::Unread.into_verify(), Err(String::from(WRONG_SHAPE)));
    assert_eq!(WRONG_SHAPE, "parameters of another operation");
    assert_eq!(UNEXPECTED_REPLY, "unexpected engine reply");
}

#[test]
fn malformed_params_keep_the_words_of_the_reader() {
    let words = String::from("missing field `tx_hex`");
    assert_eq!(Params::Malformed(words.clone()).into_verify(), Err(words.clone()));
    assert_eq!(Params::Malformed(words.clone()).into_setup(), Err(words.clone()));
    assert_eq!(Params::Malformed(words.clone()).into_read_block(), Err(words));
}

#[test]
fn decimal_string_of_single_digits() {
    assert_eq!(decimal_string(0), "0");
    assert_eq!(decimal_string(7), "7");
    assert_eq!(decimal_string(9), "9");
}

#[test]
fn decimal_string_of_longer_numbers() {
    assert_eq!(decimal_string(10), "10");
    assert_eq!(decimal_string(12), "12");
    assert_eq!(decimal_string(100), "100");
    assert_eq!(decimal_string(1234567890), "1234567890");
    assert_eq!(decimal_string(usize::MAX), usize::MAX.to_string());
}

#[test]
fn same_text_compares_every_character() {
    assert!(same_text("regtest", "regtest"));
    assert!(same_text("", ""));
    assert!(!same_text("regtest", "Regtest"));
    assert!(!same_text("regtest", "regtest "));
    assert!(!same_text("testnet", "testnet4"));
    assert!(!same_text("", "x"));
}

#[test]
fn join_puts_the_tail_after_the_head() {
    assert_eq!(join("Unknown method: ", "ping"), "Unknown method: ping");
    assert_eq!(join("", "x"), "x");
    assert_eq!(join("x", ""), "x");
    assert_eq!(join("é", "ü"), "éü");
}

#[test]
fn method_names_are_read_exactly() {
    assert_eq!(parse_method("script_pubkey.verify"), Some(Method::ScriptPubkeyVerify));
    assert_eq!(parse_method("chainstate.setup"), Some(Method::ChainstateSetup));
    assert_eq!(parse_method("chainstate.read_block"), Some(Method::ChainstateReadBlock));
    assert_eq!(parse_method("chainstate.teardown"), Some(Method::ChainstateTeardown));
    assert_eq!(parse_method("chainstate.Setup"), None);
    assert_eq!(parse_method("chainstate"), None);
    assert_eq!(parse_method(""), None);
    assert_eq!(parse_method(" chainstate.setup"), None);
}

#[test]
fn chain_types_are_read_exactly() {
    assert_eq!(parse_chain_type("mainnet"), Some(ChainType::Mainnet));
    assert_eq!(parse_chain_type("testnet"), Some(ChainType::Testnet));
    assert_eq!(parse_chain_type("testnet4"), Some(ChainType::Testnet4));
    assert_eq!(parse_chain_type("signet"), Some(ChainType::Signet));
    assert_eq!(parse_chain_type("regtest"), Some(ChainType::Regtest));
    assert_eq!(parse_chain_type("Mainnet"), None);
    assert_eq!(parse_chain_type("testnet3"), None);
    assert_eq!(parse_chain_type(""), None);
}

#[test]
fn rule_sets_are_read_exactly() {
    assert_eq!(parse_flags("VERIFY_ALL_NO_TAPROOT"), Some(VerifyFlags::AllPreTaproot));
    assert_eq!(parse_flags("VERIFY_ALL"), Some(VerifyFlags::All));
    assert_eq!(parse_flags("VERIFY_NONE"), Some(VerifyFlags::NoRules));
    assert_eq!(parse_flags("verify_all"), None);
    assert_eq!(parse_flags("VERIFY_ALL_PRE_TAPROOT"), None);
    assert_eq!(parse_flags(""), None);
}

#[test]
fn the_tip_is_selected_by_its_flag() {
    let params = ReadBlockParams { height: None, tip: Some(true) };
    assert_eq!(select_block(&params), Selection::Block(BlockSelector::Tip));
}

#[test]
fn the_tip_wins_over_a_height() {
    let params = ReadBlockParams { height: Some(4), tip: Some(true) };
    assert_eq!(select_block(&params), Selection::Block(BlockSelector::Tip));
}

#[test]
fn a_height_is_selected_when_the_tip_is_not_asked() {
    let params = ReadBlockParams { height: Some(4), tip: Some(false) };
    assert_eq!(select_block(&params), Selection::Block(BlockSelector::AtHeight(4)));
    let params = ReadBlockParams { height: Some(0), tip: None };
    assert_eq!(select_block(&params), Selection::Block(BlockSelector::AtHeight(0)));
    let params = ReadBlockParams { height: Some(i32::MAX), tip: None };
    assert_eq!(select_block(&params), Selection::Block(BlockSelector::AtHeight(2147483647)));
}

#[test]
fn nothing_is_selected_without_tip_and_height() {
    let params = ReadBlockParams { height: None, tip: None };
    assert_eq!(select_block(&params), Selection::Unspecified);
    let params = ReadBlockParams { height: None, tip: Some(false) };
    assert_eq!(select_block(&params), Selection::Unspecified);
}

#[test]
fn a_negative_height_is_below_genesis() {
    let params = ReadBlockParams { height: Some(-1), tip: None };
    assert_eq!(select_block(&params), Selection::BelowGenesis);
    let params = ReadBlockParams { height: Some(i32::MIN), tip: Some(false) };
    assert_eq!(select_block(&params), Selection::BelowGenesis);
}
