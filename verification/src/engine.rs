//! The boundary to the consensus engine. The library decides what the engine
//! is asked and what its answers mean; whoever drives the engine performs one
//! call at a time and hands the reply back.

use crate::protocol::{Response, ResponseView};
use vstd::prelude::*;

verus! {

/// The kinds of object that the engine hands out. The library stores and
/// passes them on without looking inside.
pub trait Engine {
    /// The chain-management handle.
    type Manager;

    /// The engine context, bound to one network.
    type Context;

    /// The scratch area on disk that one chain session works in.
    type Scratch;

    /// A block the engine has parsed.
    type Block;

    /// A locking script the engine has parsed.
    type Script;

    /// A transaction the engine has parsed.
    type Transaction;
}

/// The network a chain session is set up for.
#[derive(Debug, Clone, Copy, PartialEq, Eq)]
pub enum ChainType {
    Mainnet,
    Testnet,
    Testnet4,
    Signet,
    Regtest,
}

/// Which script rules a verification enforces.
#[derive(Debug, Clone, Copy, PartialEq, Eq)]
pub enum VerifyFlags {
    /// Every rule but taproot.
    AllPreTaproot,
    /// Every rule.
    All,
    /// No rule.
    NoRules,
}

/// Which block of the active chain is meant.
#[derive(Debug, Clone, Copy, PartialEq, Eq)]
pub enum BlockSelector {
    /// The block at the head of the chain.
    Tip,
    /// The block at this height, the genesis block being at height zero.
    AtHeight(usize),
}

/// How the engine classified a submitted block.
#[derive(Debug, Clone, Copy, PartialEq, Eq)]
pub enum SubmitOutcome {
    /// Accepted, and new to the engine.
    NewBlock,
    /// Accepted, but already known.
    Duplicate,
    /// Turned down by the consensus rules.
    Rejected,
}

/// What came of looking a block up and reading it.
pub enum ReadOutcome<E: Engine> {
    /// The chain has no block at the position asked for.
    NotFound,
    /// The block is on the chain but its data could not be read.
    Failed(String),
    /// The block and its height.
    Read { height: i32, block: E::Block },
}

/// The outcome of a read, its words as a sequence of characters.
pub enum ReadOutcomeView<E: Engine> {
    NotFound,
    Failed(Seq<char>),
    Read { height: i32, block: E::Block },
}

impl<E: Engine> View for ReadOutcome<E> {
    type V = ReadOutcomeView<E>;

    open spec fn view(&self) -> ReadOutcomeView<E> {
        match *self {
            ReadOutcome::NotFound => ReadOutcomeView::NotFound,
            ReadOutcome::Failed(why) => ReadOutcomeView::Failed(why@),
            ReadOutcome::Read { height, block } => ReadOutcomeView::Read { height, block },
        }
    }
}

/// What came of a script verification.
#[derive(Debug, Clone, PartialEq, Eq)]
pub enum VerifyOutcome {
    /// The script validates the input.
    Valid,
    /// The engine ran the script and it does not validate the input.
    ScriptInvalid,
    /// The engine failed in another way.
    Failed(String),
}

/// The outcome of a verification, its words as a sequence of characters.
pub enum VerifyOutcomeView {
    Valid,
    ScriptInvalid,
    Failed(Seq<char>),
}

impl View for VerifyOutcome {
    type V = VerifyOutcomeView;

    open spec fn view(&self) -> VerifyOutcomeView {
        match *self {
            VerifyOutcome::Valid => VerifyOutcomeView::Valid,
            VerifyOutcome::ScriptInvalid => VerifyOutcomeView::ScriptInvalid,
            VerifyOutcome::Failed(why) => VerifyOutcomeView::Failed(why@),
        }
    }
}

/// A result whose failure is described in words, with the words as a sequence
/// of characters.
pub open spec fn told<T>(result: Result<T, String>) -> Result<T, Seq<char>> {
    match result {
        Ok(value) => Ok(value),
        Err(why) => Err(why@),
    }
}

/// One call into the engine. The references point into the state of the
/// request that is being served.
pub enum EngineCall<'a, E: Engine> {
    /// Create a fresh, empty scratch area that no other session uses.
    CreateScratch,
    /// Build a context bound to `chain`.
    BuildContext { chain: ChainType },
    /// Build a chain-management handle rooted at `scratch`, with one worker
    /// thread, both databases in memory, and any earlier state wiped.
    BuildManager { context: &'a E::Context, scratch: &'a E::Scratch },
    /// Initialise the empty databases.
    InitDatabases { manager: &'a E::Manager },
    /// Parse a block from its raw bytes.
    BuildBlock { bytes: &'a Vec<u8> },
    /// Submit a block for validation.
    SubmitBlock { manager: &'a E::Manager, block: &'a E::Block },
    /// Report the height of the active chain's tip.
    TipHeight { manager: &'a E::Manager },
    /// Look a block up on the active chain and read its data.
    ReadBlock { manager: &'a E::Manager, selector: BlockSelector },
    /// Serialise a block to its canonical bytes.
    EncodeBlock { block: &'a E::Block },
    /// Parse a locking script from its raw bytes.
    BuildScript { bytes: &'a Vec<u8> },
    /// Parse a transaction from its raw bytes.
    BuildTransaction { bytes: &'a Vec<u8> },
    /// Verify that `script` validates the input `input_index` of
    /// `transaction`, which spends `amount`, under `flags`, with no spent
    /// outputs supplied.
    Verify {
        script: &'a E::Script,
        transaction: &'a E::Transaction,
        amount: i64,
        input_index: usize,
        flags: VerifyFlags,
    },
}

/// A call into the engine, with the objects it refers to and its bytes as a sequence.
pub enum EngineCallView<E: Engine> {
    CreateScratch,
    BuildContext { chain: ChainType },
    BuildManager { context: E::Context, scratch: E::Scratch },
    InitDatabases { manager: E::Manager },
    BuildBlock { bytes: Seq<u8> },
    SubmitBlock { manager: E::Manager, block: E::Block },
    TipHeight { manager: E::Manager },
    ReadBlock { manager: E::Manager, selector: BlockSelector },
    EncodeBlock { block: E::Block },
    BuildScript { bytes: Seq<u8> },
    BuildTransaction { bytes: Seq<u8> },
    Verify {
        script: E::Script,
        transaction: E::Transaction,
        amount: i64,
        input_index: usize,
        flags: VerifyFlags,
    },
}

impl<'a, E: Engine> View for EngineCall<'a, E> {
    type V = EngineCallView<E>;

    open spec fn view(&self) -> EngineCallView<E> {
        match *self {
            EngineCall::CreateScratch => EngineCallView::CreateScratch,
            EngineCall::BuildContext { chain } => EngineCallView::BuildContext { chain },
            EngineCall::BuildManager { context, scratch } => EngineCallView::BuildManager {
                context: *context,
                scratch: *scratch,
            },
            EngineCall::InitDatabases { manager } => EngineCallView::InitDatabases {
                manager: *manager,
            },
            EngineCall::BuildBlock { bytes } => EngineCallView::BuildBlock { bytes: bytes@ },
            EngineCall::SubmitBlock { manager, block } => EngineCallView::SubmitBlock {
                manager: *manager,
                block: *block,
            },
            EngineCall::TipHeight { manager } => EngineCallView::TipHeight { manager: *manager },
            EngineCall::ReadBlock { manager, selector } => EngineCallView::ReadBlock {
                manager: *manager,
                selector,
            },
            EngineCall::EncodeBlock { block } => EngineCallView::EncodeBlock { block: *block },
            EngineCall::BuildScript { bytes } => EngineCallView::BuildScript { bytes: bytes@ },
            EngineCall::BuildTransaction { bytes } => EngineCallView::BuildTransaction {
                bytes: bytes@,
            },
            EngineCall::Verify { script, transaction, amount, input_index, flags } => {
                EngineCallView::Verify {
                    script: *script,
                    transaction: *transaction,
                    amount,
                    input_index,
                    flags,
                }
            },
        }
    }
}

/// What the engine's driver reports after a call. A failure comes with the
/// engine's own words for it.
pub enum EngineReply<E: Engine> {
    /// Answers `CreateScratch`.
    Scratch(Result<E::Scratch, String>),
    /// Answers `BuildContext`.
    Context(Result<E::Context, String>),
    /// Answers `BuildManager`.
    Manager(Result<E::Manager, String>),
    /// Answers `InitDatabases`.
    Databases(Result<(), String>),
    /// Answers `BuildBlock`.
    BlockBuilt(Result<E::Block, String>),
    /// Answers `SubmitBlock`.
    Submitted(SubmitOutcome),
    /// Answers `TipHeight`.
    Tip(i32),
    /// Answers `ReadBlock`.
    BlockRead(ReadOutcome<E>),
    /// Answers `EncodeBlock`.
    BlockEncoded(Result<Vec<u8>, String>),
    /// Answers `BuildScript`.
    ScriptBuilt(Result<E::Script, String>),
    /// Answers `BuildTransaction`.
    TransactionBuilt(Result<E::Transaction, String>),
    /// Answers `Verify`.
    Verified(VerifyOutcome),
    /// The call did not return: a fault was caught while it ran. The text
    /// says what is known of the fault.
    Fault(String),
}

/// A reply of the engine, its words and bytes as sequences.
pub enum EngineReplyView<E: Engine> {
    Scratch(Result<E::Scratch, Seq<char>>),
    Context(Result<E::Context, Seq<char>>),
    Manager(Result<E::Manager, Seq<char>>),
    Databases(Result<(), Seq<char>>),
    BlockBuilt(Result<E::Block, Seq<char>>),
    Submitted(SubmitOutcome),
    Tip(i32),
    BlockRead(ReadOutcomeView<E>),
    BlockEncoded(Result<Seq<u8>, Seq<char>>),
    ScriptBuilt(Result<E::Script, Seq<char>>),
    TransactionBuilt(Result<E::Transaction, Seq<char>>),
    Verified(VerifyOutcomeView),
    Fault(Seq<char>),
}

impl<E: Engine> View for EngineReply<E> {
    type V = EngineReplyView<E>;

    open spec fn view(&self) -> EngineReplyView<E> {
        match *self {
            EngineReply::Scratch(r) => EngineReplyView::Scratch(told(r)),
            EngineReply::Context(r) => EngineReplyView::Context(told(r)),
            EngineReply::Manager(r) => EngineReplyView::Manager(told(r)),
            EngineReply::Databases(r) => EngineReplyView::Databases(told(r)),
            EngineReply::BlockBuilt(r) => EngineReplyView::BlockBuilt(told(r)),
            EngineReply::Submitted(outcome) => EngineReplyView::Submitted(outcome),
            EngineReply::Tip(height) => EngineReplyView::Tip(height),
            EngineReply::BlockRead(outcome) => EngineReplyView::BlockRead(outcome@),
            EngineReply::BlockEncoded(r) => EngineReplyView::BlockEncoded(
                match r {
                    Ok(bytes) => Ok(bytes@),
                    Err(why) => Err(why@),
                },
            ),
            EngineReply::ScriptBuilt(r) => EngineReplyView::ScriptBuilt(told(r)),
            EngineReply::TransactionBuilt(r) => EngineReplyView::TransactionBuilt(told(r)),
            EngineReply::Verified(outcome) => EngineReplyView::Verified(outcome@),
            EngineReply::Fault(what) => EngineReplyView::Fault(what@),
        }
    }
}

/// Where the serving of one operation stands after a step: it is answered,
/// or the engine has to be asked and the run continues with its reply.
pub enum Advance<R> {
    /// The operation is answered.
    Done(Response),
    /// The engine has to be asked what the run's `call` says.
    Next(R),
}

/// A step of an operation, as contracts speak of it.
pub enum AdvanceView<V> {
    Done(ResponseView),
    Next(V),
}

impl<R> Advance<R> {
    /// Ends the operation with an error.
    pub fn fail(id: String, code: &str, message: String) -> (advance: Advance<R>)
        ensures
            advance matches Advance::Done(response) && response@ == ResponseView::error(
                id@,
                code@,
                message@,
            ),
    {
        Advance::Done(Response::error(id, code, message))
    }
}

impl<R: View> View for Advance<R> {
    type V = AdvanceView<R::V>;

    open spec fn view(&self) -> AdvanceView<R::V> {
        match *self {
            Advance::Done(response) => AdvanceView::Done(response@),
            Advance::Next(run) => AdvanceView::Next(run@),
        }
    }
}

} // verus!
