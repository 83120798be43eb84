use kernel_bridge::engine::{
    Advance, ChainType, Engine, EngineCall, EngineReply, SubmitOutcome, VerifyFlags,
    VerifyOutcome,
};
use kernel_bridge::handler::{handle_request, Progress};
use kernel_bridge::protocol::{ErrorObj, Params, Payload, Request, Response};
use kernel_bridge::script_pubkey::{handle_script_pubkey_verify, VerifyParams};
use kernel_bridge::state::SessionState;

struct Toy;

impl Engine for Toy {
    type Manager = u32;
    type Context = ChainType;
    type Scratch = String;
    type Block = Vec<u8>;
    type Script = Vec<u8>;
    type Transaction = Vec<u8>;
}

/// What a toy engine was asked to verify.
#[derive(Debug, Clone, PartialEq, Eq)]
struct Asked {
    script: Vec<u8>,
    transaction: Vec<u8>,
    amount: i64,
    input_index: usize,
    flags: VerifyFlags,
}

/// A toy engine for scripts. It cannot parse the script 0xff nor an empty
/// transaction. Under no rules every script verifies; otherwise the script
/// has to equal the transaction's first byte. An input index beyond the
/// transaction's length is a failure of another kind.
struct ToyEngine {
    calls: Vec<&'static str>,
    asked: Option<Asked>,
}

impl ToyEngine {
    fn new() -> ToyEngine {
        ToyEngine { calls: Vec::new(), asked: None }
    }

    fn perform(&mut self, call: EngineCall<'_, Toy>) -> EngineReply<Toy> {
        match call {
            EngineCall::BuildScript { bytes } => {
                self.calls.push("script");
                if bytes == &vec![0xff] {
                    EngineReply::ScriptBuilt(Err(String::from("Failed to decode raw script")))
                } else {
                    EngineReply::ScriptBuilt(Ok(bytes.clone()))
                }
            }
            EngineCall::BuildTransaction { bytes } => {
                self.calls.push("transaction");
                if bytes.is_empty() {
                    EngineReply::TransactionBuilt(Err(String::from(
                        "Failed to decode raw transaction",
                    )))
                } else {
                    EngineReply::TransactionBuilt(Ok(bytes.clone()))
                }
            }
            EngineCall::Verify { script, transaction, amount, input_index, flags } => {
                self.calls.push("verify");
                self.asked = Some(Asked {
                    script: script.clone(),
                    transaction: transaction.clone(),
                    amount,
                    input_index,
                    flags,
                });
                if input_index >= transaction.len() {
                    EngineReply::Verified(VerifyOutcome::Failed(String::from("Out of bounds")))
                } else if flags == VerifyFlags::NoRules || script[..] == transaction[..1] {
                    EngineReply::Verified(VerifyOutcome::Valid)
                } else {
                    EngineReply::Verified(VerifyOutcome::ScriptInvalid)
                }
            }
            _ => panic!("the script tests touch no chain"),
        }
    }
}

fn serve(
    engine: &mut ToyEngine,
    request: Request,
    session: SessionState<Toy>,
) -> (Response, SessionState<Toy>) {
    let mut progress = handle_request(request, session);
    loop {
        match progress {
            Progress::Done { response, session } => return (response, session),
            Progress::Waiting(pending) => {
                let reply = engine.perform(pending.call());
                progress = pending.resume(reply);
            }
        }
    }
}

fn params(script: &str, transaction: &str, flags: &str) -> VerifyParams {
    VerifyParams {
        script_pubkey_hex: String::from(script),
        amount: 0,
        tx_hex: String::from(transaction),
        input_index: 0,
        flags: String::from(flags),
    }
}

fn verify_request(id: &str, params: VerifyParams) -> Request {
    Request {
        id: String::from(id),
        method: String::from("script_pubkey.verify"),
        params: Params::Verify(params),
    }
}

fn failure(id: &str, code: &str, message: &str) -> Response {
    Response {
        id: String::from(id),
        result: None,
        error: Some(ErrorObj { code: String::from(code), message: String::from(message) }),
    }
}

fn valid(id: &str) -> Response {
    Response { id: String::from(id), result: Some(Payload::Verified { valid: true }), error: None }
}

#[test]
fn an_empty_script_under_no_rules_is_valid() {
    let mut engine = ToyEngine::new();
    let request = verify_request("v1", params("", "0100", "VERIFY_NONE"));
    let (response, _) = serve(&mut engine, request, SessionState::new());
    assert_eq!(response, valid("v1"));
    assert_eq!(engine.calls, vec!["script", "transaction", "verify"]);
    assert_eq!(
        engine.asked,
        Some(Asked {
            script: vec![],
            transaction: vec![0x01, 0x00],
            amount: 0,
            input_index: 0,
            flags: VerifyFlags::NoRules,
        })
    );
}

#[test]
fn a_script_that_does_not_validate_is_a_script_verify_error() {
    let mut engine = ToyEngine::new();
    let request = verify_request("v2", params("6a", "0100", "VERIFY_ALL"));
    let (response, _) = serve(&mut engine, request, SessionState::new());
    assert_eq!(response, failure("v2", "SCRIPT_VERIFY_ERROR", "Script verification failed"));
    assert_ne!(response.error.unwrap().code, "KERNEL_ERROR");
}

#[test]
fn a_script_that_validates_under_every_rule_is_valid() {
    let mut engine = ToyEngine::new();
    let request = verify_request("v3", params("51", "5100", "VERIFY_ALL"));
    let (response, _) = serve(&mut engine, request, SessionState::new());
    assert_eq!(response, valid("v3"));
}

#[test]
fn another_failure_of_the_verification_is_a_kernel_error() {
    let mut engine = ToyEngine::new();
    let mut asked = params("51", "5100", "VERIFY_ALL");
    asked.input_index = 2;
    let (response, _) = serve(&mut engine, verify_request("v4", asked), SessionState::new());
    assert_eq!(response, failure("v4", "KERNEL_ERROR", "Verification error: Out of bounds"));
}

#[test]
fn the_engine_gets_the_amount_the_index_and_the_decoded_bytes() {
    let mut engine = ToyEngine::new();
    let asked = VerifyParams {
        script_pubkey_hex: String::from("76A914ab"),
        amount: -42,
        tx_hex: String::from("0200000001ff"),
        input_index: 3,
        flags: String::from("VERIFY_ALL_NO_TAPROOT"),
    };
    let (_, _) = serve(&mut engine, verify_request("v5", asked), SessionState::new());
    assert_eq!(
        engine.asked,
        Some(Asked {
            script: vec![0x76, 0xa9, 0x14, 0xab],
            transaction: vec![0x02, 0x00, 0x00, 0x00, 0x01, 0xff],
            amount: -42,
            input_index: 3,
            flags: VerifyFlags::AllPreTaproot,
        })
    );
}

#[test]
fn the_largest_amount_and_index_go_through() {
    let mut engine = ToyEngine::new();
    let asked = VerifyParams {
        script_pubkey_hex: String::new(),
        amount: i64::MAX,
        tx_hex: String::from("00"),
        input_index: usize::MAX,
        flags: String::from("VERIFY_NONE"),
    };
    let (response, _) = serve(&mut engine, verify_request("v6", asked), SessionState::new());
    assert_eq!(response, failure("v6", "KERNEL_ERROR", "Verification error: Out of bounds"));
    let asked = engine.asked.unwrap();
    assert_eq!(asked.amount, i64::MAX);
    assert_eq!(asked.input_index, usize::MAX);
}

#[test]
fn each_rule_set_reaches_the_engine_under_its_name() {
    let names = [
        ("VERIFY_ALL_NO_TAPROOT", VerifyFlags::AllPreTaproot),
        ("VERIFY_ALL", VerifyFlags::All),
        ("VERIFY_NONE", VerifyFlags::NoRules),
    ];
    for (name, flags) in names {
        let mut engine = ToyEngine::new();
        serve(&mut engine, verify_request("f", params("51", "5100", name)), SessionState::new());
        assert_eq!(engine.asked.unwrap().flags, flags);
    }
}

#[test]
fn unreadable_params_are_refused_before_anything_is_decoded() {
    let mut engine = ToyEngine::new();
    let request = Request {
        id: String::from("v7"),
        method: String::from("script_pubkey.verify"),
        params: Params::Malformed(String::from("missing field `amount`")),
    };
    let (response, _) = serve(&mut engine, request, SessionState::new());
    assert_eq!(
        response,
        failure("v7", "INVALID_PARAMS", "Failed to parse params: missing field `amount`")
    );
    assert!(engine.calls.is_empty());
}

#[test]
fn a_verification_refuses_params_of_another_operation() {
    let mut engine = ToyEngine::new();
    let request = Request {
        id: String::from("v8"),
        method: String::from("script_pubkey.verify"),
        params: Params::Unread,
    };
    let (response, _) = serve(&mut engine, request, SessionState::new());
    assert_eq!(
        response,
        failure("v8", "INVALID_PARAMS", "Failed to parse params: parameters of another operation")
    );
}

#[test]
fn a_script_that_is_not_hex_is_refused() {
    let mut engine = ToyEngine::new();
    let request = verify_request("v9", params("5g", "zz", "NOPE"));
    let (response, _) = serve(&mut engine, request, SessionState::new());
    assert_eq!(
        response,
        failure(
            "v9",
            "INVALID_PARAMS",
            "Invalid script pubkey hex: Invalid character 'g' at position 1"
        )
    );
    assert!(engine.calls.is_empty());
}

#[test]
fn a_script_with_an_odd_number_of_digits_is_refused() {
    let mut engine = ToyEngine::new();
    let request = verify_request("v10", params("5", "0100", "VERIFY_ALL"));
    let (response, _) = serve(&mut engine, request, SessionState::new());
    assert_eq!(
        response,
        failure("v10", "INVALID_PARAMS", "Invalid script pubkey hex: Odd number of digits")
    );
}

#[test]
fn a_transaction_that_is_not_hex_is_refused() {
    let mut engine = ToyEngine::new();
    let request = verify_request("v11", params("51", "01 0", "NOPE"));
    let (response, _) = serve(&mut engine, request, SessionState::new());
    assert_eq!(
        response,
        failure(
            "v11",
            "INVALID_PARAMS",
            "Invalid transaction hex: Invalid character ' ' at position 2"
        )
    );
    assert!(engine.calls.is_empty());
}

#[test]
fn a_transaction_outside_ascii_is_refused() {
    let mut engine = ToyEngine::new();
    let request = verify_request("v12", params("51", "é0", "VERIFY_ALL"));
    let (response, _) = serve(&mut engine, request, SessionState::new());
    let error = response.error.unwrap();
    assert_eq!(error.code, "INVALID_PARAMS");
    assert!(error.message.starts_with("Invalid transaction hex: "));
    assert!(engine.calls.is_empty());
}

#[test]
fn a_script_that_the_engine_cannot_parse_is_a_kernel_error() {
    let mut engine = ToyEngine::new();
    let request = verify_request("v13", params("ff", "", "NOPE"));
    let (response, _) = serve(&mut engine, request, SessionState::new());
    assert_eq!(
        response,
        failure(
            "v13",
            "KERNEL_ERROR",
            "Failed to create script pubkey: Failed to decode raw script"
        )
    );
    assert_eq!(engine.calls, vec!["script"]);
}

#[test]
fn a_transaction_that_the_engine_cannot_parse_is_a_kernel_error() {
    let mut engine = ToyEngine::new();
    let request = verify_request("v14", params("51", "", "NOPE"));
    let (response, _) = serve(&mut engine, request, SessionState::new());
    assert_eq!(
        response,
        failure(
            "v14",
            "KERNEL_ERROR",
            "Failed to create transaction: Failed to decode raw transaction"
        )
    );
    assert_eq!(engine.calls, vec!["script", "transaction"]);
}

#[test]
fn an_unknown_rule_set_is_refused_once_both_are_parsed() {
    let mut engine = ToyEngine::new();
    let request = verify_request("v15", params("51", "5100", "VERIFY_SOME"));
    let (response, _) = serve(&mut engine, request, SessionState::new());
    assert_eq!(response, failure("v15", "INVALID_PARAMS", "Unknown flags: VERIFY_SOME"));
    assert_eq!(engine.calls, vec!["script", "transaction"]);
    assert_eq!(engine.asked, None);
}

#[test]
fn a_verification_leaves_the_session_alone() {
    let mut engine = ToyEngine::new();
    let mut session: SessionState<Toy> = SessionState::new();
    session.attach(4, ChainType::Mainnet, String::from("area"));
    let request = verify_request("v16", params("6a", "0100", "VERIFY_ALL"));
    let (_, session) = serve(&mut engine, request, session);
    assert_eq!(session.chainstate_manager(), Some(&4));
    assert_eq!(session.context(), Some(&ChainType::Mainnet));
    assert_eq!(session.temp_dir(), Some(&String::from("area")));
    let request = verify_request("v17", params("zz", "0100", "VERIFY_ALL"));
    let (_, session) = serve(&mut engine, request, session);
    assert!(session.is_active());
}

#[test]
fn a_verification_needs_no_session() {
    let asked = params("", "0100", "VERIFY_NONE");
    let run = match handle_script_pubkey_verify::<Toy>(String::from("v18"), Ok(asked)) {
        Advance::Next(run) => run,
        Advance::Done(_) => panic!("the verification has to ask the engine"),
    };
    match run.call() {
        EngineCall::BuildScript { bytes } => assert!(bytes.is_empty()),
        _ => panic!("the script comes first"),
    }
    let run = match run.resume(EngineReply::ScriptBuilt(Ok(vec![]))) {
        Advance::Next(run) => run,
        Advance::Done(_) => panic!("the transaction has to be parsed"),
    };
    match run.call() {
        EngineCall::BuildTransaction { bytes } => assert_eq!(*bytes, vec![0x01, 0x00]),
        _ => panic!("the transaction comes second"),
    }
    let run = match run.resume(EngineReply::TransactionBuilt(Ok(vec![0x01, 0x00]))) {
        Advance::Next(run) => run,
        Advance::Done(_) => panic!("the script has to be run"),
    };
    assert!(matches!(run.call(), EngineCall::Verify { flags: VerifyFlags::NoRules, .. }));
    match run.resume(EngineReply::Verified(VerifyOutcome::Valid)) {
        Advance::Done(response) => assert_eq!(response, valid("v18")),
        Advance::Next(_) => panic!("the verification has to end"),
    }
}

#[test]
fn a_verification_refuses_a_reply_that_does_not_answer_its_call() {
    let asked = params("51", "0100", "VERIFY_NONE");
    let run = match handle_script_pubkey_verify::<Toy>(String::from("v19"), Ok(asked)) {
        Advance::Next(run) => run,
        Advance::Done(_) => panic!("the verification has to ask the engine"),
    };
    match run.resume(EngineReply::Submitted(SubmitOutcome::NewBlock)) {
        Advance::Done(response) => assert_eq!(
            response,
            failure("v19", "INTERNAL_ERROR", "Internal error (panic): unexpected engine reply")
        ),
        Advance::Next(_) => panic!("the verification has to end"),
    }
}

#[test]
fn a_fault_during_a_verification_is_an_internal_error() {
    let asked = params("51", "0100", "VERIFY_NONE");
    let run = match handle_script_pubkey_verify::<Toy>(String::from("v20"), Ok(asked)) {
        Advance::Next(run) => run,
        Advance::Done(_) => panic!("the verification has to ask the engine"),
    };
    match run.resume(EngineReply::Fault(String::from("assertion failed"))) {
        Advance::Done(response) => assert_eq!(
            response,
            failure("v20", "INTERNAL_ERROR", "Internal error (panic): assertion failed")
        ),
        Advance::Next(_) => panic!("the verification has to end"),
    }
}

#[test]
fn a_fault_is_answered_under_the_identifier_of_its_request() {
    let mut session: SessionState<Toy> = SessionState::new();
    session.attach(4, ChainType::Mainnet, String::from("area"));
    let request = verify_request("id-with-\u{e9}", params("51", "0100", "VERIFY_ALL"));
    let pending = match handle_request(request, session) {
        Progress::Waiting(pending) => pending,
        Progress::Done { .. } => panic!("the verification has to ask the engine"),
    };
    match pending.resume(EngineReply::Fault(String::from("boom"))) {
        Progress::Done { response, session } => {
            assert_eq!(
                response,
                failure("id-with-\u{e9}", "INTERNAL_ERROR", "Internal error (panic): boom")
            );
            assert_eq!(session.chainstate_manager(), Some(&4));
        }
        Progress::Waiting(_) => panic!("a fault has to end the request"),
    }
}
