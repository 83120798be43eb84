//! Script verification: whether a locking script validates one input of a
//! transaction. The operation neither reads nor changes the session.

use crate::engine::{
    Advance, AdvanceView, Engine, EngineCall, EngineCallView, EngineReply, EngineReplyView,
    VerifyFlags, VerifyOutcome, VerifyOutcomeView,
};
use crate::hexcode::{decode_hex, hex_bytes, hex_refusal, is_hex};
use crate::protocol::{
    read_params, Payload, PayloadView, Response, ResponseView, ERR_INVALID_PARAMS, ERR_KERNEL,
    ERR_SCRIPT_VERIFY, UNEXPECTED_REPLY,
};
use crate::text::{join, same_text};
use vstd::prelude::*;
use vstd::string::StringExecFns;

verus! {

/// What a verification request asks: the locking script and the spending
/// transaction as hex text, the amount of the output that is spent, the index
/// of the input to check, and the rule set by name.
#[derive(Debug, Clone, PartialEq, Eq)]
pub struct VerifyParams {
    pub script_pubkey_hex: String,
    pub amount: i64,
    pub tx_hex: String,
    pub input_index: usize,
    pub flags: String,
}

/// The parameters of a verification, their texts as sequences of characters.
pub struct VerifyParamsView {
    pub script_pubkey_hex: Seq<char>,
    pub amount: i64,
    pub tx_hex: Seq<char>,
    pub input_index: usize,
    pub flags: Seq<char>,
}

impl View for VerifyParams {
    type V = VerifyParamsView;

    open spec fn view(&self) -> VerifyParamsView {
        VerifyParamsView {
            script_pubkey_hex: self.script_pubkey_hex@,
            amount: self.amount,
            tx_hex: self.tx_hex@,
            input_index: self.input_index,
            flags: self.flags@,
        }
    }
}

/// The rule set that a name selects.
pub open spec fn flags_of(name: Seq<char>) -> Option<VerifyFlags> {
    if name == "VERIFY_ALL_NO_TAPROOT"@ {
        Some(VerifyFlags::AllPreTaproot)
    } else if name == "VERIFY_ALL"@ {
        Some(VerifyFlags::All)
    } else if name == "VERIFY_NONE"@ {
        Some(VerifyFlags::NoRules)
    } else {
        None
    }
}

/// Reads the name of a rule set.
pub fn parse_flags(name: &str) -> (flags: Option<VerifyFlags>)
    ensures
        flags == flags_of(name@),
{
    if same_text(name, "VERIFY_ALL_NO_TAPROOT") {
        Some(VerifyFlags::AllPreTaproot)
    } else if same_text(name, "VERIFY_ALL") {
        Some(VerifyFlags::All)
    } else if same_text(name, "VERIFY_NONE") {
        Some(VerifyFlags::NoRules)
    } else {
        None
    }
}

/// How far a verification has come.
pub enum VerifyStage<E: Engine> {
    /// The script is being parsed from `script_bytes`.
    Script { script_bytes: Vec<u8>, transaction_bytes: Vec<u8> },
    /// The transaction is being parsed from `transaction_bytes`.
    Transaction { script: E::Script, transaction_bytes: Vec<u8> },
    /// The script is being run.
    Verify { transaction: E::Transaction, script: E::Script, flags: VerifyFlags },
}

/// A stage of a verification, the bytes in work as sequences.
pub enum VerifyStageView<E: Engine> {
    Script { script_bytes: Seq<u8>, transaction_bytes: Seq<u8> },
    Transaction { script: E::Script, transaction_bytes: Seq<u8> },
    Verify { transaction: E::Transaction, script: E::Script, flags: VerifyFlags },
}

impl<E: Engine> View for VerifyStage<E> {
    type V = VerifyStageView<E>;

    open spec fn view(&self) -> VerifyStageView<E> {
        match *self {
            VerifyStage::Script { script_bytes, transaction_bytes } => VerifyStageView::Script {
                script_bytes: script_bytes@,
                transaction_bytes: transaction_bytes@,
            },
            VerifyStage::Transaction { script, transaction_bytes } => {
                VerifyStageView::Transaction { script, transaction_bytes: transaction_bytes@ }
            },
            VerifyStage::Verify { transaction, script, flags } => VerifyStageView::Verify {
                transaction,
                script,
                flags,
            },
        }
    }
}

/// A verification that waits for the engine.
pub struct VerifyRun<E: Engine> {
    id: String,
    amount: i64,
    input_index: usize,
    flags: String,
    stage: VerifyStage<E>,
}

/// A verification that waits for the engine, as contracts speak of it.
pub struct VerifyRunView<E: Engine> {
    pub id: Seq<char>,
    pub amount: i64,
    pub input_index: usize,
    pub flags: Seq<char>,
    pub stage: VerifyStageView<E>,
}

impl<E: Engine> View for VerifyRun<E> {
    type V = VerifyRunView<E>;

    closed spec fn view(&self) -> VerifyRunView<E> {
        VerifyRunView {
            id: self.id@,
            amount: self.amount,
            input_index: self.input_index,
            flags: self.flags@,
            stage: self.stage@,
        }
    }
}

/// How a verification starts: parameters that could not be read, a script
/// that is not hex and a transaction that is not hex end it, in this order,
/// as invalid parameters. An empty script is hex: it stands for no bytes.
/// Otherwise the engine is asked to parse the script.
pub open spec fn verify_begin<E: Engine>(
    id: Seq<char>,
    params: Result<VerifyParamsView, Seq<char>>,
) -> AdvanceView<VerifyRunView<E>> {
    match params {
        Err(why) => AdvanceView::Done(
            ResponseView::error(id, ERR_INVALID_PARAMS@, "Failed to parse params: "@ + why),
        ),
        Ok(p) => if !is_hex(p.script_pubkey_hex) {
            AdvanceView::Done(
                ResponseView::error(
                    id,
                    ERR_INVALID_PARAMS@,
                    "Invalid script pubkey hex: "@ + hex_refusal(p.script_pubkey_hex),
                ),
            )
        } else if !is_hex(p.tx_hex) {
            AdvanceView::Done(
                ResponseView::error(
                    id,
                    ERR_INVALID_PARAMS@,
                    "Invalid transaction hex: "@ + hex_refusal(p.tx_hex),
                ),
            )
        } else {
            AdvanceView::Next(
                VerifyRunView {
                    id,
                    amount: p.amount,
                    input_index: p.input_index,
                    flags: p.flags,
                    stage: VerifyStageView::Script {
                        script_bytes: hex_bytes(p.script_pubkey_hex),
                        transaction_bytes: hex_bytes(p.tx_hex),
                    },
                },
            )
        },
    }
}

impl<E: Engine> VerifyRunView<E> {
    /// The verification ends with an error.
    pub open spec fn fail(self, code: Seq<char>, message: Seq<char>) -> AdvanceView<
        VerifyRunView<E>,
    > {
        AdvanceView::Done(ResponseView::error(self.id, code, message))
    }

    /// The verification goes on at `stage`.
    pub open spec fn at(self, stage: VerifyStageView<E>) -> AdvanceView<VerifyRunView<E>> {
        AdvanceView::Next(
            VerifyRunView {
                id: self.id,
                amount: self.amount,
                input_index: self.input_index,
                flags: self.flags,
                stage,
            },
        )
    }

    /// What the engine is asked at this stage.
    pub open spec fn call(self) -> EngineCallView<E> {
        match self.stage {
            VerifyStageView::Script { script_bytes, .. } => EngineCallView::BuildScript {
                bytes: script_bytes,
            },
            VerifyStageView::Transaction { transaction_bytes, .. } => {
                EngineCallView::BuildTransaction { bytes: transaction_bytes }
            },
            VerifyStageView::Verify { transaction, script, flags } => EngineCallView::Verify {
                script,
                transaction,
                amount: self.amount,
                input_index: self.input_index,
                flags,
            },
        }
    }

    /// What follows from the engine's reply. A script or a transaction that
    /// the engine cannot parse is a kernel error. The name of the rule set is
    /// read once both are parsed, and an unknown name is an invalid
    /// parameter. A script that does not validate the input has an error code
    /// of its own; any other failure of the verification is a kernel error.
    pub open spec fn resume(self, reply: EngineReplyView<E>) -> AdvanceView<VerifyRunView<E>> {
        match (self.stage, reply) {
            (_, EngineReplyView::Fault(what)) => AdvanceView::Done(
                ResponseView::fault(self.id, what),
            ),
            (VerifyStageView::Script { .. }, EngineReplyView::ScriptBuilt(Err(why))) => {
                self.fail(ERR_KERNEL@, "Failed to create script pubkey: "@ + why)
            },
            (
                VerifyStageView::Script { transaction_bytes, .. },
                EngineReplyView::ScriptBuilt(Ok(script)),
            ) => self.at(VerifyStageView::Transaction { script, transaction_bytes }),
            (
                VerifyStageView::Transaction { .. },
                EngineReplyView::TransactionBuilt(Err(why)),
            ) => self.fail(ERR_KERNEL@, "Failed to create transaction: "@ + why),
            (
                VerifyStageView::Transaction { script, .. },
                EngineReplyView::TransactionBuilt(Ok(transaction)),
            ) => match flags_of(self.flags) {
                None => self.fail(ERR_INVALID_PARAMS@, "Unknown flags: "@ + self.flags),
                Some(flags) => self.at(VerifyStageView::Verify { transaction, script, flags }),
            },
            (
                VerifyStageView::Verify { .. },
                EngineReplyView::Verified(VerifyOutcomeView::Valid),
            ) => AdvanceView::Done(
                ResponseView::success(self.id, PayloadView::Verified { valid: true }),
            ),
            (
                VerifyStageView::Verify { .. },
                EngineReplyView::Verified(VerifyOutcomeView::ScriptInvalid),
            ) => self.fail(ERR_SCRIPT_VERIFY@, "Script verification failed"@),
            (
                VerifyStageView::Verify { .. },
                EngineReplyView::Verified(VerifyOutcomeView::Failed(why)),
            ) => self.fail(ERR_KERNEL@, "Verification error: "@ + why),
            _ => AdvanceView::Done(ResponseView::fault(self.id, UNEXPECTED_REPLY@)),
        }
    }
}

/// Starts a verification.
pub fn handle_script_pubkey_verify<E: Engine>(
    id: String,
    params: Result<VerifyParams, String>,
) -> (advance: Advance<VerifyRun<E>>)
    ensures
        advance@ == verify_begin::<E>(id@, read_params(params)),
{
    let params = match params {
        Ok(p) => p,
        Err(why) => {
            return Advance::fail(
                id,
                ERR_INVALID_PARAMS,
                join("Failed to parse params: ", why.as_str()),
            );
        },
    };
    let script_bytes = if params.script_pubkey_hex.as_str().is_empty() {
        let none: Vec<u8> = Vec::new();
        assert(none@ =~= hex_bytes(params.script_pubkey_hex@));
        none
    } else {
        match decode_hex(params.script_pubkey_hex.as_str()) {
            Ok(bytes) => bytes,
            Err(why) => {
                return Advance::fail(
                    id,
                    ERR_INVALID_PARAMS,
                    join("Invalid script pubkey hex: ", why.as_str()),
                );
            },
        }
    };
    let transaction_bytes = match decode_hex(params.tx_hex.as_str()) {
        Ok(bytes) => bytes,
        Err(why) => {
            return Advance::fail(
                id,
                ERR_INVALID_PARAMS,
                join("Invalid transaction hex: ", why.as_str()),
            );
        },
    };
    Advance::Next(
        VerifyRun {
            id,
            amount: params.amount,
            input_index: params.input_index,
            flags: params.flags,
            stage: VerifyStage::Script { script_bytes, transaction_bytes },
        },
    )
}

impl<E: Engine> VerifyRun<E> {
    /// What the engine has to be asked now.
    pub fn call(&self) -> (call: EngineCall<'_, E>)
        ensures
            call@ == self@.call(),
    {
        match &self.stage {
            VerifyStage::Script { script_bytes, .. } => EngineCall::BuildScript {
                bytes: script_bytes,
            },
            VerifyStage::Transaction { transaction_bytes, .. } => EngineCall::BuildTransaction {
                bytes: transaction_bytes,
            },
            VerifyStage::Verify { transaction, script, flags } => EngineCall::Verify {
                script,
                transaction,
                amount: self.amount,
                input_index: self.input_index,
                flags: *flags,
            },
        }
    }

    /// Takes the engine's reply to the call that `call` named and says what
    /// follows.
    pub fn resume(self, reply: EngineReply<E>) -> (advance: Advance<VerifyRun<E>>)
        ensures
            advance@ == self@.resume(reply@),
    {
        let VerifyRun { id, amount, input_index, flags, stage } = self;
        match (stage, reply) {
            (_, EngineReply::Fault(what)) => Advance::Done(Response::fault(id, what.as_str())),
            (VerifyStage::Script { .. }, EngineReply::ScriptBuilt(Err(why))) => Advance::fail(
                id,
                ERR_KERNEL,
                join("Failed to create script pubkey: ", why.as_str()),
            ),
            (
                VerifyStage::Script { transaction_bytes, .. },
                EngineReply::ScriptBuilt(Ok(script)),
            ) => Advance::Next(
                VerifyRun {
                    id,
                    amount,
                    input_index,
                    flags,
                    stage: VerifyStage::Transaction { script, transaction_bytes },
                },
            ),
            (VerifyStage::Transaction { .. }, EngineReply::TransactionBuilt(Err(why))) => {
                Advance::fail(id, ERR_KERNEL, join("Failed to create transaction: ", why.as_str()))
            },
            (
                VerifyStage::Transaction { script, .. },
                EngineReply::TransactionBuilt(Ok(transaction)),
            ) => match parse_flags(flags.as_str()) {
                None => Advance::fail(
                    id,
                    ERR_INVALID_PARAMS,
                    join("Unknown flags: ", flags.as_str()),
                ),
                Some(rules) => Advance::Next(
                    VerifyRun {
                        id,
                        amount,
                        input_index,
                        flags,
                        stage: VerifyStage::Verify { transaction, script, flags: rules },
                    },
                ),
            },
            (VerifyStage::Verify { .. }, EngineReply::Verified(VerifyOutcome::Valid)) => {
                Advance::Done(Response::success(id, Payload::Verified { valid: true }))
            },
            (VerifyStage::Verify { .. }, EngineReply::Verified(VerifyOutcome::ScriptInvalid)) => {
                Advance::fail(id, ERR_SCRIPT_VERIFY, String::from_str("Script verification failed"))
            },
            (VerifyStage::Verify { .. }, EngineReply::Verified(VerifyOutcome::Failed(why))) => {
                Advance::fail(id, ERR_KERNEL, join("Verification error: ", why.as_str()))
            },
            _ => Advance::Done(Response::fault(id, UNEXPECTED_REPLY)),
        }
    }
}

} // verus!
