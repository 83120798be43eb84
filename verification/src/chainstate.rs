//! The chain operations: setting a chain up from raw blocks, reading a block
//! back, and tearing the session down.

use crate::engine::{
    Advance, AdvanceView, BlockSelector, ChainType, Engine, EngineCall, EngineCallView,
    EngineReply, EngineReplyView, ReadOutcome, ReadOutcomeView, SubmitOutcome,
};
use crate::hexcode::{decode_hex, encode_hex, hex_bytes, hex_refusal, hex_text, is_hex};
use crate::protocol::{
    read_params, Payload, PayloadView, Response, ResponseView, ERR_INTERNAL, ERR_INVALID_PARAMS,
    ERR_KERNEL, UNEXPECTED_REPLY,
};
use crate::state::{SessionState, SessionView};
use crate::text::{decimal, decimal_string, join, same_text, texts};
use vstd::prelude::*;
use vstd::string::StringExecFns;

verus! {

/// What a setup request asks for: the network by name, and the blocks to
/// import, each as hex text, in the order in which they are to be submitted.
#[derive(Debug, Clone, PartialEq, Eq)]
pub struct SetupParams {
    pub chain_type: String,
    pub blocks_hex: Vec<String>,
}

/// The parameters of a setup, their texts as sequences of characters.
pub struct SetupParamsView {
    pub chain_type: Seq<char>,
    pub blocks_hex: Seq<Seq<char>>,
}

impl View for SetupParams {
    type V = SetupParamsView;

    open spec fn view(&self) -> SetupParamsView {
        SetupParamsView { chain_type: self.chain_type@, blocks_hex: texts(self.blocks_hex@) }
    }
}

/// Which block a read request asks for: the tip, or the block at a height.
#[derive(Debug, Clone, Copy, PartialEq, Eq)]
pub struct ReadBlockParams {
    pub height: Option<i32>,
    pub tip: Option<bool>,
}

/// The network that a name selects.
pub open spec fn chain_type_of(name: Seq<char>) -> Option<ChainType> {
    if name == "mainnet"@ {
        Some(ChainType::Mainnet)
    } else if name == "testnet"@ {
        Some(ChainType::Testnet)
    } else if name == "testnet4"@ {
        Some(ChainType::Testnet4)
    } else if name == "signet"@ {
        Some(ChainType::Signet)
    } else if name == "regtest"@ {
        Some(ChainType::Regtest)
    } else {
        None
    }
}

/// Reads a network name.
pub fn parse_chain_type(name: &str) -> (chain: Option<ChainType>)
    ensures
        chain == chain_type_of(name@),
{
    if same_text(name, "mainnet") {
        Some(ChainType::Mainnet)
    } else if same_text(name, "testnet") {
        Some(ChainType::Testnet)
    } else if same_text(name, "testnet4") {
        Some(ChainType::Testnet4)
    } else if same_text(name, "signet") {
        Some(ChainType::Signet)
    } else if same_text(name, "regtest") {
        Some(ChainType::Regtest)
    } else {
        None
    }
}

/// The three resources of a chain that is being set up, in the order in
/// which they are let go.
pub struct Staged<E: Engine> {
    pub manager: E::Manager,
    pub context: E::Context,
    pub scratch: E::Scratch,
}

/// How far a setup has come, with the resources built so far. None of them
/// belongs to the session yet.
pub enum SetupStage<E: Engine> {
    /// The scratch area is being created.
    Scratch,
    /// The context is being built.
    Context { scratch: E::Scratch, chain: ChainType },
    /// The chain-management handle is being built.
    Manager { context: E::Context, scratch: E::Scratch },
    /// The empty databases are being initialised.
    Databases { staged: Staged<E> },
    /// The block at `index` is being parsed from `bytes`; `imported` of the
    /// blocks before it were new to the engine.
    BlockBuild { staged: Staged<E>, index: usize, imported: usize, bytes: Vec<u8> },
    /// The block at `index` is being validated.
    BlockSubmit { block: E::Block, staged: Staged<E>, index: usize, imported: usize },
    /// Every block went in; the height of the tip is being asked.
    Tip { staged: Staged<E>, imported: usize },
}

/// A stage of a setup, the bytes in work as a sequence.
pub enum SetupStageView<E: Engine> {
    Scratch,
    Context { scratch: E::Scratch, chain: ChainType },
    Manager { context: E::Context, scratch: E::Scratch },
    Databases { staged: Staged<E> },
    BlockBuild { staged: Staged<E>, index: usize, imported: usize, bytes: Seq<u8> },
    BlockSubmit { block: E::Block, staged: Staged<E>, index: usize, imported: usize },
    Tip { staged: Staged<E>, imported: usize },
}

impl<E: Engine> View for SetupStage<E> {
    type V = SetupStageView<E>;

    open spec fn view(&self) -> SetupStageView<E> {
        match *self {
            SetupStage::Scratch => SetupStageView::Scratch,
            SetupStage::Context { scratch, chain } => SetupStageView::Context { scratch, chain },
            SetupStage::Manager { context, scratch } => SetupStageView::Manager {
                context,
                scratch,
            },
            SetupStage::Databases { staged } => SetupStageView::Databases { staged },
            SetupStage::BlockBuild { staged, index, imported, bytes } => {
                SetupStageView::BlockBuild { staged, index, imported, bytes: bytes@ }
            },
            SetupStage::BlockSubmit { block, staged, index, imported } => {
                SetupStageView::BlockSubmit { block, staged, index, imported }
            },
            SetupStage::Tip { staged, imported } => SetupStageView::Tip { staged, imported },
        }
    }
}

/// A setup that waits for the engine.
pub struct SetupRun<E: Engine> {
    id: String,
    chain_type: String,
    blocks: Vec<String>,
    stage: SetupStage<E>,
}

/// A setup that waits for the engine, as contracts speak of it.
pub struct SetupRunView<E: Engine> {
    pub id: Seq<char>,
    pub chain_type: Seq<char>,
    pub blocks: Seq<Seq<char>>,
    pub stage: SetupStageView<E>,
}

impl<E: Engine> View for SetupRun<E> {
    type V = SetupRunView<E>;

    closed spec fn view(&self) -> SetupRunView<E> {
        SetupRunView {
            id: self.id@,
            chain_type: self.chain_type@,
            blocks: texts(self.blocks@),
            stage: self.stage@,
        }
    }
}

/// How a setup starts: parameters that could not be read end it at once;
/// otherwise the scratch area is asked for.
pub open spec fn setup_begin<E: Engine>(
    id: Seq<char>,
    params: Result<SetupParamsView, Seq<char>>,
) -> AdvanceView<SetupRunView<E>> {
    match params {
        Err(why) => AdvanceView::Done(
            ResponseView::error(id, ERR_INVALID_PARAMS@, "Failed to parse params: "@ + why),
        ),
        Ok(p) => AdvanceView::Next(
            SetupRunView {
                id,
                chain_type: p.chain_type,
                blocks: p.blocks_hex,
                stage: SetupStageView::Scratch,
            },
        ),
    }
}

/// What comes when the blocks before `index` are in: the tip is asked after
/// the last block; a block that is not hex ends the setup, with its index in
/// the message; any other block is handed to the engine.
pub open spec fn setup_next_block<E: Engine>(
    id: Seq<char>,
    chain_type: Seq<char>,
    blocks: Seq<Seq<char>>,
    staged: Staged<E>,
    index: usize,
    imported: usize,
) -> AdvanceView<SetupRunView<E>> {
    if index >= blocks.len() {
        AdvanceView::Next(
            SetupRunView {
                id,
                chain_type,
                blocks,
                stage: SetupStageView::Tip { staged, imported },
            },
        )
    } else if !is_hex(blocks[index as int]) {
        AdvanceView::Done(
            ResponseView::error(
                id,
                ERR_INVALID_PARAMS@,
                "Invalid block hex at index "@ + decimal(index as nat) + ": "@ + hex_refusal(
                    blocks[index as int],
                ),
            ),
        )
    } else {
        AdvanceView::Next(
            SetupRunView {
                id,
                chain_type,
                blocks,
                stage: SetupStageView::BlockBuild {
                    staged,
                    index,
                    imported,
                    bytes: hex_bytes(blocks[index as int]),
                },
            },
        )
    }
}

impl<E: Engine> SetupRunView<E> {
    /// There are no more blocks than can be counted, the block in work is one
    /// of them and is hex, and no more blocks were counted as imported than
    /// were submitted.
    pub open spec fn well_formed(self) -> bool {
        &&& self.blocks.len() <= usize::MAX
        &&& match self.stage {
            SetupStageView::BlockBuild { index, imported, bytes, .. } => {
                &&& index < self.blocks.len()
                &&& imported <= index
                &&& is_hex(self.blocks[index as int])
                &&& bytes == hex_bytes(self.blocks[index as int])
            },
            SetupStageView::BlockSubmit { index, imported, .. } => {
                &&& index < self.blocks.len()
                &&& imported <= index
            },
            SetupStageView::Tip { imported, .. } => imported <= self.blocks.len(),
            _ => true,
        }
    }

    /// The setup ends with an error.
    pub open spec fn fail(self, code: Seq<char>, message: Seq<char>) -> AdvanceView<
        SetupRunView<E>,
    > {
        AdvanceView::Done(ResponseView::error(self.id, code, message))
    }

    /// What comes when the blocks before `index` are in.
    pub open spec fn next_block(
        self,
        staged: Staged<E>,
        index: usize,
        imported: usize,
    ) -> AdvanceView<SetupRunView<E>> {
        setup_next_block(self.id, self.chain_type, self.blocks, staged, index, imported)
    }

    /// The setup goes on at `stage`.
    pub open spec fn at(self, stage: SetupStageView<E>) -> AdvanceView<SetupRunView<E>> {
        AdvanceView::Next(
            SetupRunView { id: self.id, chain_type: self.chain_type, blocks: self.blocks, stage },
        )
    }

    /// What the engine is asked at this stage.
    pub open spec fn call(self) -> EngineCallView<E> {
        match self.stage {
            SetupStageView::Scratch => EngineCallView::CreateScratch,
            SetupStageView::Context { chain, .. } => EngineCallView::BuildContext { chain },
            SetupStageView::Manager { context, scratch } => EngineCallView::BuildManager {
                context,
                scratch,
            },
            SetupStageView::Databases { staged } => EngineCallView::InitDatabases {
                manager: staged.manager,
            },
            SetupStageView::BlockBuild { bytes, .. } => EngineCallView::BuildBlock { bytes },
            SetupStageView::BlockSubmit { block, staged, .. } => EngineCallView::SubmitBlock {
                manager: staged.manager,
                block,
            },
            SetupStageView::Tip { staged, .. } => EngineCallView::TipHeight {
                manager: staged.manager,
            },
        }
    }

    /// The resources that the session takes over with this reply: those of
    /// the finished setup, when the reply is the tip's height at the last
    /// stage, and none with any other reply.
    pub open spec fn attaches(self, reply: EngineReplyView<E>) -> Option<Staged<E>> {
        match (self.stage, reply) {
            (SetupStageView::Tip { staged, .. }, EngineReplyView::Tip(_)) => Some(staged),
            _ => None,
        }
    }

    /// What follows from the engine's reply. A failure of the engine ends the
    /// setup with the error that names the step; so does a network name that
    /// is not known, once the scratch area is there. A block that the engine
    /// already knew is passed over without being counted.
    pub open spec fn resume(self, reply: EngineReplyView<E>) -> AdvanceView<SetupRunView<E>> {
        match (self.stage, reply) {
            (_, EngineReplyView::Fault(what)) => AdvanceView::Done(
                ResponseView::fault(self.id, what),
            ),
            (SetupStageView::Scratch, EngineReplyView::Scratch(Err(why))) => self.fail(
                ERR_INTERNAL@,
                "Failed to create temp dir: "@ + why,
            ),
            (SetupStageView::Scratch, EngineReplyView::Scratch(Ok(scratch))) => {
                match chain_type_of(self.chain_type) {
                    None => self.fail(
                        ERR_INVALID_PARAMS@,
                        "Unknown chain type: "@ + self.chain_type,
                    ),
                    Some(chain) => self.at(SetupStageView::Context { scratch, chain }),
                }
            },
            (SetupStageView::Context { .. }, EngineReplyView::Context(Err(why))) => self.fail(
                ERR_KERNEL@,
                "Failed to create context: "@ + why,
            ),
            (SetupStageView::Context { scratch, .. }, EngineReplyView::Context(Ok(context))) => {
                self.at(SetupStageView::Manager { context, scratch })
            },
            (SetupStageView::Manager { .. }, EngineReplyView::Manager(Err(why))) => self.fail(
                ERR_KERNEL@,
                "Failed to create chainstate manager: "@ + why,
            ),
            (
                SetupStageView::Manager { context, scratch },
                EngineReplyView::Manager(Ok(manager)),
            ) => self.at(
                SetupStageView::Databases { staged: Staged { manager, context, scratch } },
            ),
            (SetupStageView::Databases { .. }, EngineReplyView::Databases(Err(why))) => {
                self.fail(ERR_KERNEL@, "Failed to initialize: "@ + why)
            },
            (SetupStageView::Databases { staged }, EngineReplyView::Databases(Ok(_))) => {
                self.next_block(staged, 0, 0)
            },
            (
                SetupStageView::BlockBuild { index, .. },
                EngineReplyView::BlockBuilt(Err(why)),
            ) => self.fail(
                ERR_KERNEL@,
                "Failed to create block at index "@ + decimal(index as nat) + ": "@ + why,
            ),
            (
                SetupStageView::BlockBuild { staged, index, imported, .. },
                EngineReplyView::BlockBuilt(Ok(block)),
            ) => self.at(SetupStageView::BlockSubmit { block, staged, index, imported }),
            (
                SetupStageView::BlockSubmit { index, .. },
                EngineReplyView::Submitted(SubmitOutcome::Rejected),
            ) => self.fail(
                ERR_KERNEL@,
                "Failed to process block at index "@ + decimal(index as nat),
            ),
            (
                SetupStageView::BlockSubmit { staged, index, imported, .. },
                EngineReplyView::Submitted(SubmitOutcome::NewBlock),
            ) => self.next_block(staged, (index + 1) as usize, (imported + 1) as usize),
            (
                SetupStageView::BlockSubmit { staged, index, imported, .. },
                EngineReplyView::Submitted(SubmitOutcome::Duplicate),
            ) => self.next_block(staged, (index + 1) as usize, imported),
            (SetupStageView::Tip { imported, .. }, EngineReplyView::Tip(tip_height)) => {
                AdvanceView::Done(
                    ResponseView::success(
                        self.id,
                        PayloadView::ChainReady { blocks_imported: imported, tip_height },
                    ),
                )
            },
            _ => AdvanceView::Done(ResponseView::fault(self.id, UNEXPECTED_REPLY@)),
        }
    }
}

/// Starts a setup. The session first lets go of whatever it holds, whatever
/// the request is like. Parameters that could not be read then end the setup;
/// otherwise the engine is to be asked for a scratch area.
pub fn handle_chainstate_setup<E: Engine>(
    id: String,
    params: Result<SetupParams, String>,
    state: &mut SessionState<E>,
) -> (advance: Advance<SetupRun<E>>)
    ensures
        advance@ == setup_begin::<E>(id@, read_params(params)),
        final(state)@ == SessionView::<E>::empty(),
{
    state.cleanup();
    match params {
        Err(why) => Advance::fail(
            id,
            ERR_INVALID_PARAMS,
            join("Failed to parse params: ", why.as_str()),
        ),
        Ok(p) => {
            assert(p.blocks_hex@.len() == p.blocks_hex.len());
            Advance::Next(
                SetupRun {
                    id,
                    chain_type: p.chain_type,
                    blocks: p.blocks_hex,
                    stage: SetupStage::Scratch,
                },
            )
        },
    }
}

impl<E: Engine> SetupRun<E> {
    #[verifier::type_invariant]
    spec fn in_bounds(self) -> bool {
        self@.well_formed()
    }

    /// What the engine has to be asked now.
    pub fn call(&self) -> (call: EngineCall<'_, E>)
        ensures
            call@ == self@.call(),
            self@.well_formed(),
    {
        proof {
            use_type_invariant(self);
        }
        match &self.stage {
            SetupStage::Scratch => EngineCall::CreateScratch,
            SetupStage::Context { chain, .. } => EngineCall::BuildContext { chain: *chain },
            SetupStage::Manager { context, scratch } => EngineCall::BuildManager {
                context,
                scratch,
            },
            SetupStage::Databases { staged } => EngineCall::InitDatabases {
                manager: &staged.manager,
            },
            SetupStage::BlockBuild { bytes, .. } => EngineCall::BuildBlock { bytes },
            SetupStage::BlockSubmit { block, staged, .. } => EngineCall::SubmitBlock {
                manager: &staged.manager,
                block,
            },
            SetupStage::Tip { staged, .. } => EngineCall::TipHeight { manager: &staged.manager },
        }
    }

    /// Goes on to the block at `index`, `imported` of the earlier blocks
    /// having been new.
    fn next_block(
        id: String,
        chain_type: String,
        blocks: Vec<String>,
        staged: Staged<E>,
        index: usize,
        imported: usize,
    ) -> (advance: Advance<SetupRun<E>>)
        requires
            index <= blocks.len(),
            imported <= index,
        ensures
            advance@ == setup_next_block(
                id@,
                chain_type@,
                texts(blocks@),
                staged,
                index,
                imported,
            ),
    {
        if index >= blocks.len() {
            Advance::Next(
                SetupRun { id, chain_type, blocks, stage: SetupStage::Tip { staged, imported } },
            )
        } else {
            match decode_hex(blocks[index].as_str()) {
                Err(why) => {
                    let place = decimal_string(index);
                    let message = join("Invalid block hex at index ", place.as_str());
                    let message = join(message.as_str(), ": ");
                    let message = join(message.as_str(), why.as_str());
                    Advance::fail(id, ERR_INVALID_PARAMS, message)
                },
                Ok(bytes) => Advance::Next(
                    SetupRun {
                        id,
                        chain_type,
                        blocks,
                        stage: SetupStage::BlockBuild { staged, index, imported, bytes },
                    },
                ),
            }
        }
    }

    /// Takes the engine's reply to the call that `call` named and says what
    /// follows. The session is touched by one reply only, the tip's height at
    /// the end of a setup: it then takes over the three resources. Whenever
    /// the setup ends otherwise, what was built for it is let go.
    pub fn resume(self, reply: EngineReply<E>, state: &mut SessionState<E>) -> (advance: Advance<
        SetupRun<E>,
    >)
        ensures
            advance@ == self@.resume(reply@),
            final(state)@ == match self@.attaches(reply@) {
                Some(staged) => SessionView::holding(
                    staged.manager,
                    staged.context,
                    staged.scratch,
                ),
                None => old(state)@,
            },
    {
        proof {
            use_type_invariant(&self);
            assert(self@.blocks.len() == self.blocks.len());
        }
        let SetupRun { id, chain_type, blocks, stage } = self;
        match (stage, reply) {
            (_, EngineReply::Fault(what)) => Advance::Done(Response::fault(id, what.as_str())),
            (SetupStage::Scratch, EngineReply::Scratch(Err(why))) => Advance::fail(
                id,
                ERR_INTERNAL,
                join("Failed to create temp dir: ", why.as_str()),
            ),
            (SetupStage::Scratch, EngineReply::Scratch(Ok(scratch))) => {
                match parse_chain_type(chain_type.as_str()) {
                    None => Advance::fail(
                        id,
                        ERR_INVALID_PARAMS,
                        join("Unknown chain type: ", chain_type.as_str()),
                    ),
                    Some(chain) => Advance::Next(
                        SetupRun {
                            id,
                            chain_type,
                            blocks,
                            stage: SetupStage::Context { scratch, chain },
                        },
                    ),
                }
            },
            (SetupStage::Context { .. }, EngineReply::Context(Err(why))) => Advance::fail(
                id,
                ERR_KERNEL,
                join("Failed to create context: ", why.as_str()),
            ),
            (SetupStage::Context { scratch, .. }, EngineReply::Context(Ok(context))) => {
                Advance::Next(
                    SetupRun {
                        id,
                        chain_type,
                        blocks,
                        stage: SetupStage::Manager { context, scratch },
                    },
                )
            },
            (SetupStage::Manager { .. }, EngineReply::Manager(Err(why))) => Advance::fail(
                id,
                ERR_KERNEL,
                join("Failed to create chainstate manager: ", why.as_str()),
            ),
            (SetupStage::Manager { context, scratch }, EngineReply::Manager(Ok(manager))) => {
                Advance::Next(
                    SetupRun {
                        id,
                        chain_type,
                        blocks,
                        stage: SetupStage::Databases {
                            staged: Staged { manager, context, scratch },
                        },
                    },
                )
            },
            (SetupStage::Databases { .. }, EngineReply::Databases(Err(why))) => Advance::fail(
                id,
                ERR_KERNEL,
                join("Failed to initialize: ", why.as_str()),
            ),
            (SetupStage::Databases { staged }, EngineReply::Databases(Ok(_))) => {
                Self::next_block(id, chain_type, blocks, staged, 0, 0)
            },
            (SetupStage::BlockBuild { index, .. }, EngineReply::BlockBuilt(Err(why))) => {
                let place = decimal_string(index);
                let message = join("Failed to create block at index ", place.as_str());
                let message = join(message.as_str(), ": ");
                let message = join(message.as_str(), why.as_str());
                Advance::fail(id, ERR_KERNEL, message)
            },
            (
                SetupStage::BlockBuild { staged, index, imported, .. },
                EngineReply::BlockBuilt(Ok(block)),
            ) => Advance::Next(
                SetupRun {
                    id,
                    chain_type,
                    blocks,
                    stage: SetupStage::BlockSubmit { block, staged, index, imported },
                },
            ),
            (
                SetupStage::BlockSubmit { index, .. },
                EngineReply::Submitted(SubmitOutcome::Rejected),
            ) => {
                let place = decimal_string(index);
                Advance::fail(
                    id,
                    ERR_KERNEL,
                    join("Failed to process block at index ", place.as_str()),
                )
            },
            (
                SetupStage::BlockSubmit { staged, index, imported, .. },
                EngineReply::Submitted(SubmitOutcome::NewBlock),
            ) => Self::next_block(id, chain_type, blocks, staged, index + 1, imported + 1),
            (
                SetupStage::BlockSubmit { staged, index, imported, .. },
                EngineReply::Submitted(SubmitOutcome::Duplicate),
            ) => Self::next_block(id, chain_type, blocks, staged, index + 1, imported),
            (SetupStage::Tip { staged, imported }, EngineReply::Tip(tip_height)) => {
                let Staged { manager, context, scratch } = staged;
                state.attach(manager, context, scratch);
                Advance::Done(
                    Response::success(
                        id,
                        Payload::ChainReady { blocks_imported: imported, tip_height },
                    ),
                )
            },
            _ => Advance::Done(Response::fault(id, UNEXPECTED_REPLY)),
        }
    }
}

impl View for ReadBlockParams {
    type V = ReadBlockParams;

    open spec fn view(&self) -> ReadBlockParams {
        *self
    }
}

/// What a read request selects.
#[derive(Debug, Clone, Copy, PartialEq, Eq)]
pub enum Selection {
    /// Neither the tip nor a height was asked for.
    Unspecified,
    /// A height below the genesis block, where no chain has a block.
    BelowGenesis,
    /// A block of the active chain.
    Block(BlockSelector),
}

/// The block that the parameters select. The tip flag, when it is set, wins
/// over a height.
pub open spec fn selection_of(params: ReadBlockParams) -> Selection {
    if params.tip == Some(true) {
        Selection::Block(BlockSelector::Tip)
    } else {
        match params.height {
            Some(height) => if height < 0 {
                Selection::BelowGenesis
            } else {
                Selection::Block(BlockSelector::AtHeight(height as usize))
            },
            None => Selection::Unspecified,
        }
    }
}

/// Works out which block the parameters select.
pub fn select_block(params: &ReadBlockParams) -> (selection: Selection)
    ensures
        selection == selection_of(*params),
{
    let tip = match params.tip {
        Some(flag) => flag,
        None => false,
    };
    if tip {
        Selection::Block(BlockSelector::Tip)
    } else {
        match params.height {
            Some(height) => if height < 0 {
                Selection::BelowGenesis
            } else {
                Selection::Block(BlockSelector::AtHeight(height as usize))
            },
            None => Selection::Unspecified,
        }
    }
}

/// How far the reading of a block has come.
pub enum ReadStage<E: Engine> {
    /// The block is being looked up and read.
    Lookup { selector: BlockSelector },
    /// The block, found at `height`, is being serialised.
    Encode { block: E::Block, height: i32 },
}

/// A read that waits for the engine.
pub struct ReadRun<E: Engine> {
    id: String,
    stage: ReadStage<E>,
}

/// A read that waits for the engine, as contracts speak of it.
pub struct ReadRunView<E: Engine> {
    pub id: Seq<char>,
    pub stage: ReadStage<E>,
}

impl<E: Engine> View for ReadRun<E> {
    type V = ReadRunView<E>;

    closed spec fn view(&self) -> ReadRunView<E> {
        ReadRunView { id: self.id@, stage: self.stage }
    }
}

/// How a read starts. Without an active chain session it is an internal
/// error, whatever the parameters are. Then come parameters that could not be
/// read, and parameters that select nothing. A height below the genesis block
/// is out of range on every chain. Otherwise the engine is asked for the
/// block.
pub open spec fn read_block_begin<E: Engine>(
    id: Seq<char>,
    params: Result<ReadBlockParams, Seq<char>>,
    session: SessionView<E>,
) -> AdvanceView<ReadRunView<E>> {
    if !session.active() {
        AdvanceView::Done(ResponseView::error(id, ERR_INTERNAL@, "Chainstate not initialized"@))
    } else {
        match params {
            Err(why) => AdvanceView::Done(
                ResponseView::error(id, ERR_INVALID_PARAMS@, "Failed to parse params: "@ + why),
            ),
            Ok(p) => match selection_of(p) {
                Selection::Unspecified => AdvanceView::Done(
                    ResponseView::error(
                        id,
                        ERR_INVALID_PARAMS@,
                        "Must specify either height or tip"@,
                    ),
                ),
                Selection::BelowGenesis => AdvanceView::Done(
                    ResponseView::error(id, ERR_KERNEL@, "Block not found"@),
                ),
                Selection::Block(selector) => AdvanceView::Next(
                    ReadRunView { id, stage: ReadStage::Lookup { selector } },
                ),
            },
        }
    }
}

impl<E: Engine> ReadRunView<E> {
    /// The read ends with an error.
    pub open spec fn fail(self, code: Seq<char>, message: Seq<char>) -> AdvanceView<
        ReadRunView<E>,
    > {
        AdvanceView::Done(ResponseView::error(self.id, code, message))
    }

    /// What the engine is asked at this stage, `manager` being the session's
    /// chain-management handle.
    pub open spec fn call(self, manager: E::Manager) -> EngineCallView<E> {
        match self.stage {
            ReadStage::Lookup { selector } => EngineCallView::ReadBlock { manager, selector },
            ReadStage::Encode { block, .. } => EngineCallView::EncodeBlock { block },
        }
    }

    /// What follows from the engine's reply. A position that the chain does
    /// not have, a block that cannot be read and a block that cannot be
    /// serialised are kernel errors. The block's bytes are reported as hex,
    /// with the height at which the block was found.
    pub open spec fn resume(self, reply: EngineReplyView<E>) -> AdvanceView<ReadRunView<E>> {
        match (self.stage, reply) {
            (_, EngineReplyView::Fault(what)) => AdvanceView::Done(
                ResponseView::fault(self.id, what),
            ),
            (ReadStage::Lookup { .. }, EngineReplyView::BlockRead(ReadOutcomeView::NotFound)) => {
                self.fail(ERR_KERNEL@, "Block not found"@)
            },
            (
                ReadStage::Lookup { .. },
                EngineReplyView::BlockRead(ReadOutcomeView::Failed(why)),
            ) => self.fail(ERR_KERNEL@, "Failed to read block: "@ + why),
            (
                ReadStage::Lookup { .. },
                EngineReplyView::BlockRead(ReadOutcomeView::Read { height, block }),
            ) => AdvanceView::Next(
                ReadRunView { id: self.id, stage: ReadStage::Encode { block, height } },
            ),
            (ReadStage::Encode { .. }, EngineReplyView::BlockEncoded(Err(why))) => self.fail(
                ERR_KERNEL@,
                "Failed to serialize block: "@ + why,
            ),
            (ReadStage::Encode { height, .. }, EngineReplyView::BlockEncoded(Ok(bytes))) => {
                AdvanceView::Done(
                    ResponseView::success(
                        self.id,
                        PayloadView::Block { block_hex: hex_text(bytes), height },
                    ),
                )
            },
            _ => AdvanceView::Done(ResponseView::fault(self.id, UNEXPECTED_REPLY@)),
        }
    }
}

/// Starts the reading of a block. The session is only looked at.
pub fn handle_chainstate_read_block<E: Engine>(
    id: String,
    params: Result<ReadBlockParams, String>,
    state: &SessionState<E>,
) -> (advance: Advance<ReadRun<E>>)
    ensures
        advance@ == read_block_begin(id@, read_params(params), state@),
        !state@.active() ==> advance@ == AdvanceView::<ReadRunView<E>>::Done(
            ResponseView::error(id@, ERR_INTERNAL@, "Chainstate not initialized"@),
        ),
        advance is Next ==> state@.active(),
{
    if !state.is_active() {
        return Advance::fail(id, ERR_INTERNAL, String::from_str("Chainstate not initialized"));
    }
    let params = match params {
        Ok(p) => p,
        Err(why) => {
            return Advance::fail(
                id,
                ERR_INVALID_PARAMS,
                join("Failed to parse params: ", why.as_str()),
            );
        },
    };
    match select_block(&params) {
        Selection::Unspecified => Advance::fail(
            id,
            ERR_INVALID_PARAMS,
            String::from_str("Must specify either height or tip"),
        ),
        Selection::BelowGenesis => Advance::fail(
            id,
            ERR_KERNEL,
            String::from_str("Block not found"),
        ),
        Selection::Block(selector) => Advance::Next(
            ReadRun { id, stage: ReadStage::Lookup { selector } },
        ),
    }
}

impl<E: Engine> ReadRun<E> {
    /// What the engine has to be asked now, `manager` being the session's
    /// chain-management handle.
    pub fn call<'a>(&'a self, manager: &'a E::Manager) -> (call: EngineCall<'a, E>)
        ensures
            call@ == self@.call(*manager),
    {
        match &self.stage {
            ReadStage::Lookup { selector } => EngineCall::ReadBlock {
                manager,
                selector: *selector,
            },
            ReadStage::Encode { block, .. } => EngineCall::EncodeBlock { block },
        }
    }

    /// Takes the engine's reply to the call that `call` named and says what
    /// follows.
    pub fn resume(self, reply: EngineReply<E>) -> (advance: Advance<ReadRun<E>>)
        ensures
            advance@ == self@.resume(reply@),
    {
        let ReadRun { id, stage } = self;
        match (stage, reply) {
            (_, EngineReply::Fault(what)) => Advance::Done(Response::fault(id, what.as_str())),
            (ReadStage::Lookup { .. }, EngineReply::BlockRead(ReadOutcome::NotFound)) => {
                Advance::fail(id, ERR_KERNEL, String::from_str("Block not found"))
            },
            (ReadStage::Lookup { .. }, EngineReply::BlockRead(ReadOutcome::Failed(why))) => {
                Advance::fail(id, ERR_KERNEL, join("Failed to read block: ", why.as_str()))
            },
            (
                ReadStage::Lookup { .. },
                EngineReply::BlockRead(ReadOutcome::Read { height, block }),
            ) => Advance::Next(ReadRun { id, stage: ReadStage::Encode { block, height } }),
            (ReadStage::Encode { .. }, EngineReply::BlockEncoded(Err(why))) => Advance::fail(
                id,
                ERR_KERNEL,
                join("Failed to serialize block: ", why.as_str()),
            ),
            (ReadStage::Encode { height, .. }, EngineReply::BlockEncoded(Ok(bytes))) => {
                let block_hex = encode_hex(&bytes);
                Advance::Done(Response::success(id, Payload::Block { block_hex, height }))
            },
            _ => Advance::Done(Response::fault(id, UNEXPECTED_REPLY)),
        }
    }
}

/// Tears the session down: it lets go of everything it holds and reports
/// success. There is nothing that this asks of the session or of the engine,
/// so it cannot fail.
pub fn handle_chainstate_teardown<E: Engine>(id: String, state: &mut SessionState<E>) -> (response:
    Response)
    ensures
        response@ == ResponseView::success(id@, PayloadView::TornDown { success: true }),
        final(state)@ == SessionView::<E>::empty(),
{
    state.cleanup();
    Response::success(id, Payload::TornDown { success: true })
}

} // verus!
