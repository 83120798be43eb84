//! Whole requests: what comes of a request when the engine's replies are
//! handed back one after the other, and what holds of every such run.

use crate::chainstate::{
    chain_type_of, setup_next_block, ReadBlockParams, ReadRunView, ReadStage, SetupParamsView,
    SetupStageView, Staged,
};
use crate::engine::{Engine, EngineReplyView, ReadOutcomeView, SubmitOutcome};
use crate::handler::{
    as_setup, line_begin, method_of, on_session, request_begin, Method, PendingView,
    ProgressView, WorkView,
};
use crate::hexcode::{hex_bytes, hex_refusal, is_hex, is_lower_hex, lemma_lower_hex_survives};
use crate::protocol::{
    is_error_code, ParamsView, PayloadView, RequestView, ResponseView, ERR_INTERNAL,
    ERR_INVALID_PARAMS, ERR_INVALID_REQUEST, ERR_KERNEL, ERR_METHOD_NOT_FOUND,
};
use crate::script_pubkey::VerifyStageView;
use crate::state::SessionView;
use crate::text::decimal;
use vstd::prelude::*;

verus! {

/// Where a request stands once the engine's replies have been handed back in
/// order. Replies that come after the request is answered are not looked at,
/// and a request whose replies run out keeps waiting.
pub open spec fn run<E: Engine>(
    progress: ProgressView<E>,
    replies: Seq<EngineReplyView<E>>,
) -> ProgressView<E>
    decreases replies.len(),
{
    match progress {
        ProgressView::Done { .. } => progress,
        ProgressView::Waiting(pending) => if replies.len() == 0 {
            progress
        } else {
            run(pending.resume(replies[0]), replies.drop_first())
        },
    }
}

/// The session that a request is served on, as it stands.
pub open spec fn session_of<E: Engine>(progress: ProgressView<E>) -> SessionView<E> {
    match progress {
        ProgressView::Done { session, .. } => session,
        ProgressView::Waiting(pending) => pending.session,
    }
}

/// Whether a response is one that the protocol allows: a result or an error
/// and not both, the error with one of the six codes.
pub open spec fn lawful(response: ResponseView) -> bool {
    &&& response.well_formed()
    &&& response.error matches Some(e) ==> is_error_code(e.code)
}

/// Handing back the replies in two parts is the same as handing them back at
/// once.
pub proof fn lemma_run_in_parts<E: Engine>(
    progress: ProgressView<E>,
    first: Seq<EngineReplyView<E>>,
    rest: Seq<EngineReplyView<E>>,
)
    ensures
        run(progress, first + rest) == run(run(progress, first), rest),
    decreases first.len(),
{
    match progress {
        ProgressView::Done { .. } => {
            assert(run(progress, first) == progress);
            assert(run(progress, rest) == progress);
        },
        ProgressView::Waiting(pending) => {
            if first.len() == 0 {
                assert(first + rest =~= rest);
            } else {
                assert((first + rest)[0] == first[0]);
                assert((first + rest).drop_first() =~= first.drop_first() + rest);
                lemma_run_in_parts(pending.resume(first[0]), first.drop_first(), rest);
            }
        },
    }
}

/// A line that could not be read as a request is answered with the code for
/// an invalid request and no identifier, and the session stays as it was.
pub proof fn lemma_unreadable_line<E: Engine>(why: Seq<char>, session: SessionView<E>)
    ensures
        line_begin(Err(why), session) matches ProgressView::Done { response, session: after }
            && response.fails_with(ERR_INVALID_REQUEST@) && response.id.len() == 0 && after
            == session,
{
}

/// A request for an operation that is not known is answered with the code
/// for an unknown method, under the request's identifier, and the session
/// stays as it was.
pub proof fn lemma_unknown_method<E: Engine>(request: RequestView, session: SessionView<E>)
    requires
        method_of(request.method) is None,
    ensures
        request_begin(request, session) matches ProgressView::Done { response, session: after }
            && response.fails_with(ERR_METHOD_NOT_FOUND@) && response.id == request.id && after
            == session,
{
}

/// A teardown succeeds on every session, whatever its parameters are, and
/// leaves the session empty.
pub proof fn lemma_teardown_always_succeeds<E: Engine>(
    request: RequestView,
    session: SessionView<E>,
)
    requires
        method_of(request.method) == Some(Method::ChainstateTeardown),
    ensures
        request_begin(request, session) == (ProgressView::Done {
            response: ResponseView::success(request.id, PayloadView::TornDown { success: true }),
            session: SessionView::<E>::empty(),
        }),
{
}

/// A block read on a session without an active chain is answered with an
/// internal error, whatever its parameters are.
pub proof fn lemma_read_needs_a_chain<E: Engine>(request: RequestView, session: SessionView<E>)
    requires
        method_of(request.method) == Some(Method::ChainstateReadBlock),
        !session.active(),
    ensures
        request_begin(request, session) matches ProgressView::Done { response, session: after }
            && response.fails_with(ERR_INTERNAL@) && response.id == request.id && after
            == session,
{
}

/// A read of a height that the chain does not have is answered with a kernel
/// error, and the session stays as it was.
pub proof fn lemma_out_of_range_is_a_kernel_error<E: Engine>(
    pending: PendingView<E>,
    read: ReadRunView<E>,
)
    requires
        pending.work == WorkView::Read(read),
        read.stage is Lookup,
    ensures
        pending.resume(EngineReplyView::BlockRead(ReadOutcomeView::NotFound))
            == (ProgressView::Done {
            response: ResponseView::error(read.id, ERR_KERNEL@, "Block not found"@),
            session: pending.session,
        }),
{
}

/// A read of a height below the genesis block is answered with a kernel
/// error without the engine being asked, and the session stays as it was.
pub proof fn lemma_below_genesis_is_a_kernel_error<E: Engine>(
    request: RequestView,
    session: SessionView<E>,
    height: i32,
    tip: Option<bool>,
)
    requires
        method_of(request.method) == Some(Method::ChainstateReadBlock),
        request.params == ParamsView::ReadBlock(ReadBlockParams { height: Some(height), tip }),
        tip != Some(true),
        height < 0,
        session.active(),
    ensures
        request_begin(request, session) == (ProgressView::Done {
            response: ResponseView::error(request.id, ERR_KERNEL@, "Block not found"@),
            session,
        }),
{
}

/// A fault that is caught while the engine works ends the request with an
/// internal error under the request's identifier, and so does a reply that
/// does not answer the call. The session is the one that the request was
/// waiting on: nothing that was built for the request stays, so the next
/// request finds the session as if this one had not been made, apart from
/// the reset with which a setup starts.
pub proof fn lemma_fault_is_contained<E: Engine>(pending: PendingView<E>, what: Seq<char>)
    ensures
        pending.resume(EngineReplyView::Fault(what)) == (ProgressView::Done {
            response: ResponseView::error(
                waiting_id(pending),
                ERR_INTERNAL@,
                "Internal error (panic): "@ + what,
            ),
            session: pending.session,
        }),
{
}

/// What a setup comes to depends on the request and on the engine alone: on
/// whatever session it is made, the same replies lead to the same response
/// and to the same session, in which nothing of the earlier session is left.
pub proof fn lemma_setup_forgets_the_session<E: Engine>(
    request: RequestView,
    one: SessionView<E>,
    other: SessionView<E>,
    replies: Seq<EngineReplyView<E>>,
)
    requires
        method_of(request.method) == Some(Method::ChainstateSetup),
    ensures
        run(request_begin(request, one), replies) == run(request_begin(request, other), replies),
{
}

/// Every answer to a line is one that the protocol allows.
pub proof fn lemma_first_answer_is_lawful<E: Engine>(
    line: Result<RequestView, Seq<char>>,
    session: SessionView<E>,
)
    ensures
        line_begin(line, session) matches ProgressView::Done { response, .. } ==> lawful(response),
{
}

/// Every answer that follows a reply of the engine is one that the protocol
/// allows.
pub proof fn lemma_later_answer_is_lawful<E: Engine>(
    pending: PendingView<E>,
    reply: EngineReplyView<E>,
)
    ensures
        pending.resume(reply) matches ProgressView::Done { response, .. } ==> lawful(response),
{
}

/// However the engine replies, a request is answered with a response that
/// the protocol allows.
pub proof fn lemma_every_answer_is_lawful<E: Engine>(
    progress: ProgressView<E>,
    replies: Seq<EngineReplyView<E>>,
)
    requires
        progress matches ProgressView::Done { response, .. } ==> lawful(response),
    ensures
        run(progress, replies) matches ProgressView::Done { response, .. } ==> lawful(response),
    decreases replies.len(),
{
    match progress {
        ProgressView::Done { .. } => {},
        ProgressView::Waiting(pending) => {
            if replies.len() > 0 {
                lemma_later_answer_is_lawful(pending, replies[0]);
                lemma_every_answer_is_lawful(pending.resume(replies[0]), replies.drop_first());
            }
        },
    }
}

/// The identifier of the request that waits.
pub open spec fn waiting_id<E: Engine>(pending: PendingView<E>) -> Seq<char> {
    match pending.work {
        WorkView::Setup(setup) => setup.id,
        WorkView::Read(read) => read.id,
        WorkView::Verify(verify) => verify.id,
    }
}

/// Whether a request stands under the identifier `id`: it waits under that
/// identifier, or it is answered under it.
pub open spec fn bears_id<E: Engine>(progress: ProgressView<E>, id: Seq<char>) -> bool {
    match progress {
        ProgressView::Done { response, .. } => response.id == id,
        ProgressView::Waiting(pending) => waiting_id(pending) == id,
    }
}

/// The response to a request repeats the identifier of the request, however
/// the engine replies and whether or not a fault is caught on the way.
pub proof fn lemma_answer_bears_the_request_id<E: Engine>(
    request: RequestView,
    session: SessionView<E>,
    replies: Seq<EngineReplyView<E>>,
)
    ensures
        bears_id(run(request_begin(request, session), replies), request.id),
{
    lemma_run_bears_id(request_begin(request, session), request.id, replies);
}

/// Replies of the engine do not change the identifier under which a request
/// is served.
pub proof fn lemma_run_bears_id<E: Engine>(
    progress: ProgressView<E>,
    id: Seq<char>,
    replies: Seq<EngineReplyView<E>>,
)
    requires
        bears_id(progress, id),
    ensures
        bears_id(run(progress, replies), id),
    decreases replies.len(),
{
    match progress {
        ProgressView::Done { .. } => {},
        ProgressView::Waiting(pending) => {
            if replies.len() > 0 {
                lemma_run_bears_id(pending.resume(replies[0]), id, replies.drop_first());
            }
        },
    }
}

/// Whether a request that is being served stands well: the session keeps its
/// rule, and a request that waits is well-formed.
pub open spec fn stands_well<E: Engine>(progress: ProgressView<E>) -> bool {
    match progress {
        ProgressView::Done { session, .. } => session.well_formed(),
        ProgressView::Waiting(pending) => pending.well_formed(),
    }
}

/// Serving a line on a well-formed session starts well.
pub proof fn lemma_begin_stands_well<E: Engine>(
    line: Result<RequestView, Seq<char>>,
    session: SessionView<E>,
)
    requires
        session.well_formed(),
        line matches Ok(request) ==> request.well_formed(),
    ensures
        stands_well(line_begin(line, session)),
{
}

/// A reply of the engine leaves a request that stood well standing well: in
/// particular the session never holds the chain-management handle without
/// its context and its scratch area.
pub proof fn lemma_resume_stands_well<E: Engine>(
    pending: PendingView<E>,
    reply: EngineReplyView<E>,
)
    requires
        pending.well_formed(),
    ensures
        stands_well(pending.resume(reply)),
{
}

/// However the engine replies, the session keeps its rule.
pub proof fn lemma_run_stands_well<E: Engine>(
    progress: ProgressView<E>,
    replies: Seq<EngineReplyView<E>>,
)
    requires
        stands_well(progress),
    ensures
        stands_well(run(progress, replies)),
        session_of(run(progress, replies)).well_formed(),
    decreases replies.len(),
{
    match progress {
        ProgressView::Done { .. } => {},
        ProgressView::Waiting(pending) => {
            if replies.len() > 0 {
                lemma_resume_stands_well(pending, replies[0]);
                lemma_run_stands_well(pending.resume(replies[0]), replies.drop_first());
            }
        },
    }
}

/// Reading a block and verifying a script leave the session as it is,
/// however the engine replies and however the request ends.
pub proof fn lemma_only_setup_changes_the_session<E: Engine>(
    pending: PendingView<E>,
    replies: Seq<EngineReplyView<E>>,
)
    requires
        !(pending.work is Setup),
    ensures
        session_of(run(ProgressView::Waiting(pending), replies)) == pending.session,
    decreases replies.len(),
{
    reveal_with_fuel(run, 2);
    if replies.len() > 0 {
        match pending.resume(replies[0]) {
            ProgressView::Done { .. } => {},
            ProgressView::Waiting(next) => {
                lemma_only_setup_changes_the_session(next, replies.drop_first());
            },
        }
    }
}

/// A setup ends in one of two ways, however the engine replies: with a
/// result and a session that holds the new chain, or with an error and an
/// empty session. While it waits the session is empty too. So a setup that
/// fails, at whatever step, leaves nothing attached.
pub proof fn lemma_setup_attaches_all_or_nothing<E: Engine>(
    pending: PendingView<E>,
    replies: Seq<EngineReplyView<E>>,
)
    requires
        pending.work is Setup,
        pending.session == SessionView::<E>::empty(),
    ensures
        match run(ProgressView::Waiting(pending), replies) {
            ProgressView::Done { response, session } => {
                &&& response.error is Some ==> session == SessionView::<E>::empty()
                &&& response.result is Some ==> session.active() && session.well_formed()
            },
            ProgressView::Waiting(still) => {
                &&& still.work is Setup
                &&& still.session == SessionView::<E>::empty()
            },
        },
    decreases replies.len(),
{
    reveal_with_fuel(run, 2);
    if replies.len() > 0 {
        match pending.resume(replies[0]) {
            ProgressView::Done { .. } => {},
            ProgressView::Waiting(next) => {
                lemma_setup_attaches_all_or_nothing(next, replies.drop_first());
            },
        }
    }
}

/// After a setup that failed, a block read is answered with an internal
/// error: there is no chain to read from, and none of an earlier setup
/// either.
pub proof fn lemma_no_read_after_failed_setup<E: Engine>(
    setup: RequestView,
    session: SessionView<E>,
    replies: Seq<EngineReplyView<E>>,
    read: RequestView,
)
    requires
        method_of(setup.method) == Some(Method::ChainstateSetup),
        method_of(read.method) == Some(Method::ChainstateReadBlock),
        run(request_begin(setup, session), replies) matches ProgressView::Done { response, .. }
            && response.error is Some,
    ensures
        request_begin(read, session_of(run(request_begin(setup, session), replies)))
            matches ProgressView::Done { response, .. } && response.fails_with(ERR_INTERNAL@),
{
    match request_begin(setup, session) {
        ProgressView::Done { .. } => {},
        ProgressView::Waiting(pending) => {
            lemma_setup_attaches_all_or_nothing(pending, replies);
        },
    }
}

/// The replies of an engine that opens a chain without a failure: the
/// scratch area, the context, the handle, and the databases.
pub open spec fn opening_replies<E: Engine>(staged: Staged<E>) -> Seq<EngineReplyView<E>> {
    seq![
        EngineReplyView::Scratch(Ok(staged.scratch)),
        EngineReplyView::Context(Ok(staged.context)),
        EngineReplyView::Manager(Ok(staged.manager)),
        EngineReplyView::Databases(Ok(())),
    ]
}

/// The replies of an engine that is handed block after block: for each block
/// what it parsed, and then how it classified the block.
pub open spec fn import_replies<E: Engine>(
    built: Seq<E::Block>,
    outcomes: Seq<SubmitOutcome>,
) -> Seq<EngineReplyView<E>>
    decreases outcomes.len(),
{
    if outcomes.len() == 0 || built.len() == 0 {
        Seq::empty()
    } else {
        import_replies::<E>(built.drop_last(), outcomes.drop_last()) + seq![
            EngineReplyView::BlockBuilt(Ok(built.last())),
            EngineReplyView::Submitted(outcomes.last()),
        ]
    }
}

/// How many of the outcomes say that the block was new.
pub open spec fn count_new(outcomes: Seq<SubmitOutcome>) -> nat
    decreases outcomes.len(),
{
    if outcomes.len() == 0 {
        0
    } else {
        count_new(outcomes.drop_last()) + if outcomes.last() == SubmitOutcome::NewBlock {
            1nat
        } else {
            0nat
        }
    }
}

/// No more blocks are new than were submitted.
pub proof fn lemma_count_new_bounded(outcomes: Seq<SubmitOutcome>)
    ensures
        count_new(outcomes) <= outcomes.len(),
    decreases outcomes.len(),
{
    if outcomes.len() > 0 {
        lemma_count_new_bounded(outcomes.drop_last());
    }
}

/// A block that the engine already knew adds nothing to the count, and a new
/// block adds one.
pub proof fn lemma_duplicates_are_not_counted(outcomes: Seq<SubmitOutcome>, next: SubmitOutcome)
    ensures
        next == SubmitOutcome::Duplicate ==> count_new(outcomes.push(next)) == count_new(outcomes),
        next == SubmitOutcome::NewBlock ==> count_new(outcomes.push(next)) == count_new(outcomes)
            + 1,
{
    assert(outcomes.push(next).drop_last() =~= outcomes);
}

/// When the engine opens the chain without a failure, the setup comes to its
/// first block, with nothing imported yet.
pub proof fn lemma_setup_opens<E: Engine>(
    request: RequestView,
    params: SetupParamsView,
    session: SessionView<E>,
    staged: Staged<E>,
)
    requires
        method_of(request.method) == Some(Method::ChainstateSetup),
        request.params == ParamsView::Setup(params),
        chain_type_of(params.chain_type) is Some,
    ensures
        run(request_begin(request, session), opening_replies(staged)) == on_session(
            as_setup(
                setup_next_block(
                    request.id,
                    params.chain_type,
                    params.blocks_hex,
                    staged,
                    0,
                    0,
                ),
            ),
            SessionView::<E>::empty(),
        ),
{
    let r0 = EngineReplyView::<E>::Scratch(Ok(staged.scratch));
    let r1 = EngineReplyView::<E>::Context(Ok(staged.context));
    let r2 = EngineReplyView::<E>::Manager(Ok(staged.manager));
    let r3 = EngineReplyView::<E>::Databases(Ok(()));
    let p0 = request_begin(request, session);
    assert(opening_replies(staged) =~= seq![r0] + seq![r1, r2, r3]);
    lemma_run_in_parts(p0, seq![r0], seq![r1, r2, r3]);
    let p1 = run(p0, seq![r0]);
    assert(seq![r0].drop_first() =~= Seq::empty());
    assert(seq![r1] + seq![r2, r3] =~= seq![r1, r2, r3]);
    lemma_run_in_parts(p1, seq![r1], seq![r2, r3]);
    let p2 = run(p1, seq![r1]);
    assert(seq![r1].drop_first() =~= Seq::empty());
    assert(seq![r2] + seq![r3] =~= seq![r2, r3]);
    lemma_run_in_parts(p2, seq![r2], seq![r3]);
    assert(seq![r2].drop_first() =~= Seq::empty());
    assert(seq![r3].drop_first() =~= Seq::empty());
    reveal_with_fuel(run, 3);
}

/// Blocks go in one after the other, in the order of the request. While each
/// block is hex and the engine parses and accepts it, the setup comes to the
/// next block, and the blocks counted as imported are those that were new.
pub proof fn lemma_import_advances<E: Engine>(
    id: Seq<char>,
    chain_type: Seq<char>,
    blocks: Seq<Seq<char>>,
    session: SessionView<E>,
    staged: Staged<E>,
    built: Seq<E::Block>,
    outcomes: Seq<SubmitOutcome>,
)
    requires
        blocks.len() <= usize::MAX,
        built.len() == outcomes.len(),
        outcomes.len() <= blocks.len(),
        forall|i: int| 0 <= i < outcomes.len() ==> is_hex(#[trigger] blocks[i]),
        forall|i: int|
            0 <= i < outcomes.len() ==> #[trigger] outcomes[i] != SubmitOutcome::Rejected,
    ensures
        count_new(outcomes) <= outcomes.len(),
        run(
            on_session(as_setup(setup_next_block(id, chain_type, blocks, staged, 0, 0)), session),
            import_replies::<E>(built, outcomes),
        ) == on_session(
            as_setup(
                setup_next_block(
                    id,
                    chain_type,
                    blocks,
                    staged,
                    outcomes.len() as usize,
                    count_new(outcomes) as usize,
                ),
            ),
            session,
        ),
    decreases outcomes.len(),
{
    let start = on_session(
        as_setup(setup_next_block(id, chain_type, blocks, staged, 0, 0)),
        session,
    );
    lemma_count_new_bounded(outcomes);
    if outcomes.len() == 0 {
        assert(run(start, import_replies::<E>(built, outcomes)) == start);
    } else {
        let earlier = outcomes.drop_last();
        let k = earlier.len();
        lemma_count_new_bounded(earlier);
        lemma_import_advances(id, chain_type, blocks, session, staged, built.drop_last(), earlier);
        let before = import_replies::<E>(built.drop_last(), earlier);
        let build = EngineReplyView::<E>::BlockBuilt(Ok(built.last()));
        let submit = EngineReplyView::<E>::Submitted(outcomes.last());
        lemma_run_in_parts(start, before, seq![build, submit]);
        let here = run(start, before);
        assert(is_hex(blocks[k as int]));
        assert(outcomes[k as int] != SubmitOutcome::Rejected);
        assert(seq![build, submit].drop_first() =~= seq![submit]);
        assert(seq![submit].drop_first() =~= Seq::empty());
        reveal_with_fuel(run, 3);
    }
}

/// A setup in which the engine opens the chain and accepts the first blocks
/// comes to the block after them, with the new ones counted, and still with
/// nothing attached to the session.
pub proof fn lemma_setup_imports_in_order<E: Engine>(
    request: RequestView,
    params: SetupParamsView,
    session: SessionView<E>,
    staged: Staged<E>,
    built: Seq<E::Block>,
    outcomes: Seq<SubmitOutcome>,
)
    requires
        method_of(request.method) == Some(Method::ChainstateSetup),
        request.params == ParamsView::Setup(params),
        chain_type_of(params.chain_type) is Some,
        params.blocks_hex.len() <= usize::MAX,
        built.len() == outcomes.len(),
        outcomes.len() <= params.blocks_hex.len(),
        forall|i: int| 0 <= i < outcomes.len() ==> is_hex(#[trigger] params.blocks_hex[i]),
        forall|i: int|
            0 <= i < outcomes.len() ==> #[trigger] outcomes[i] != SubmitOutcome::Rejected,
    ensures
        count_new(outcomes) <= outcomes.len(),
        run(
            request_begin(request, session),
            opening_replies(staged) + import_replies::<E>(built, outcomes),
        ) == on_session(
            as_setup(
                setup_next_block(
                    request.id,
                    params.chain_type,
                    params.blocks_hex,
                    staged,
                    outcomes.len() as usize,
                    count_new(outcomes) as usize,
                ),
            ),
            SessionView::<E>::empty(),
        ),
{
    lemma_setup_opens(request, params, session, staged);
    lemma_import_advances(
        request.id,
        params.chain_type,
        params.blocks_hex,
        SessionView::<E>::empty(),
        staged,
        built,
        outcomes,
    );
    lemma_run_in_parts(
        request_begin(request, session),
        opening_replies(staged),
        import_replies::<E>(built, outcomes),
    );
}

/// A setup in which the engine accepts every block succeeds. It reports as
/// imported the blocks that were new to the engine, not those it already
/// knew, and as tip what the engine says; the session holds the new chain.
pub proof fn lemma_setup_succeeds<E: Engine>(
    request: RequestView,
    params: SetupParamsView,
    session: SessionView<E>,
    staged: Staged<E>,
    built: Seq<E::Block>,
    outcomes: Seq<SubmitOutcome>,
    tip_height: i32,
)
    requires
        method_of(request.method) == Some(Method::ChainstateSetup),
        request.params == ParamsView::Setup(params),
        chain_type_of(params.chain_type) is Some,
        params.blocks_hex.len() <= usize::MAX,
        built.len() == outcomes.len(),
        outcomes.len() == params.blocks_hex.len(),
        forall|i: int| 0 <= i < outcomes.len() ==> is_hex(#[trigger] params.blocks_hex[i]),
        forall|i: int|
            0 <= i < outcomes.len() ==> #[trigger] outcomes[i] != SubmitOutcome::Rejected,
    ensures
        run(
            request_begin(request, session),
            opening_replies(staged) + import_replies::<E>(built, outcomes) + seq![
                EngineReplyView::Tip(tip_height),
            ],
        ) == (ProgressView::Done {
            response: ResponseView::success(
                request.id,
                PayloadView::ChainReady {
                    blocks_imported: count_new(outcomes) as usize,
                    tip_height,
                },
            ),
            session: SessionView::<E>::holding(staged.manager, staged.context, staged.scratch),
        }),
{
    lemma_setup_imports_in_order(request, params, session, staged, built, outcomes);
    let tip = EngineReplyView::<E>::Tip(tip_height);
    lemma_run_in_parts(
        request_begin(request, session),
        opening_replies(staged) + import_replies::<E>(built, outcomes),
        seq![tip],
    );
    assert(seq![tip].drop_first() =~= Seq::empty());
    reveal_with_fuel(run, 2);
}

/// A setup without blocks succeeds whenever the engine does: nothing is
/// counted as imported, the tip is where the engine says its chain starts,
/// and the session holds the three resources of the new chain.
pub proof fn lemma_setup_without_blocks<E: Engine>(
    request: RequestView,
    params: SetupParamsView,
    session: SessionView<E>,
    scratch: E::Scratch,
    context: E::Context,
    manager: E::Manager,
    tip_height: i32,
)
    requires
        method_of(request.method) == Some(Method::ChainstateSetup),
        request.params == ParamsView::Setup(params),
        params.blocks_hex.len() == 0,
        chain_type_of(params.chain_type) is Some,
    ensures
        run(
            request_begin(request, session),
            seq![
                EngineReplyView::Scratch(Ok(scratch)),
                EngineReplyView::Context(Ok(context)),
                EngineReplyView::Manager(Ok(manager)),
                EngineReplyView::Databases(Ok(())),
                EngineReplyView::Tip(tip_height),
            ],
        ) == (ProgressView::Done {
            response: ResponseView::success(
                request.id,
                PayloadView::ChainReady { blocks_imported: 0, tip_height },
            ),
            session: SessionView::<E>::holding(manager, context, scratch),
        }),
{
    let staged = Staged::<E> { manager, context, scratch };
    let none = Seq::<SubmitOutcome>::empty();
    lemma_setup_succeeds(request, params, session, staged, Seq::empty(), none, tip_height);
    assert(opening_replies(staged) + import_replies::<E>(Seq::empty(), none) + seq![
        EngineReplyView::Tip(tip_height),
    ] =~= seq![
        EngineReplyView::Scratch(Ok(scratch)),
        EngineReplyView::Context(Ok(context)),
        EngineReplyView::Manager(Ok(manager)),
        EngineReplyView::Databases(Ok(())),
        EngineReplyView::Tip(tip_height),
    ]);
}

/// A setup stops at the first block that is not hex. The blocks before it
/// have gone to the engine and none after it; the error names the index of
/// the block; nothing is attached to the session.
pub proof fn lemma_setup_stops_at_bad_hex<E: Engine>(
    request: RequestView,
    params: SetupParamsView,
    session: SessionView<E>,
    staged: Staged<E>,
    built: Seq<E::Block>,
    outcomes: Seq<SubmitOutcome>,
)
    requires
        method_of(request.method) == Some(Method::ChainstateSetup),
        request.params == ParamsView::Setup(params),
        chain_type_of(params.chain_type) is Some,
        params.blocks_hex.len() <= usize::MAX,
        built.len() == outcomes.len(),
        outcomes.len() < params.blocks_hex.len(),
        forall|i: int| 0 <= i < outcomes.len() ==> is_hex(#[trigger] params.blocks_hex[i]),
        forall|i: int|
            0 <= i < outcomes.len() ==> #[trigger] outcomes[i] != SubmitOutcome::Rejected,
        !is_hex(params.blocks_hex[outcomes.len() as int]),
    ensures
        run(
            request_begin(request, session),
            opening_replies(staged) + import_replies::<E>(built, outcomes),
        ) == (ProgressView::Done {
            response: ResponseView::error(
                request.id,
                ERR_INVALID_PARAMS@,
                "Invalid block hex at index "@ + decimal(outcomes.len()) + ": "@ + hex_refusal(
                    params.blocks_hex[outcomes.len() as int],
                ),
            ),
            session: SessionView::<E>::empty(),
        }),
{
    lemma_setup_imports_in_order(request, params, session, staged, built, outcomes);
}

/// A setup stops at the first block that the engine cannot parse, with an
/// error that names the index of the block and with nothing attached to the
/// session.
pub proof fn lemma_setup_stops_at_malformed_block<E: Engine>(
    request: RequestView,
    params: SetupParamsView,
    session: SessionView<E>,
    staged: Staged<E>,
    built: Seq<E::Block>,
    outcomes: Seq<SubmitOutcome>,
    why: Seq<char>,
)
    requires
        method_of(request.method) == Some(Method::ChainstateSetup),
        request.params == ParamsView::Setup(params),
        chain_type_of(params.chain_type) is Some,
        params.blocks_hex.len() <= usize::MAX,
        built.len() == outcomes.len(),
        outcomes.len() < params.blocks_hex.len(),
        forall|i: int| 0 <= i <= outcomes.len() ==> is_hex(#[trigger] params.blocks_hex[i]),
        forall|i: int|
            0 <= i < outcomes.len() ==> #[trigger] outcomes[i] != SubmitOutcome::Rejected,
    ensures
        run(
            request_begin(request, session),
            opening_replies(staged) + import_replies::<E>(built, outcomes) + seq![
                EngineReplyView::BlockBuilt(Err(why)),
            ],
        ) == (ProgressView::Done {
            response: ResponseView::error(
                request.id,
                ERR_KERNEL@,
                "Failed to create block at index "@ + decimal(outcomes.len()) + ": "@ + why,
            ),
            session: SessionView::<E>::empty(),
        }),
{
    lemma_setup_imports_in_order(request, params, session, staged, built, outcomes);
    let refusal = EngineReplyView::<E>::BlockBuilt(Err(why));
    lemma_run_in_parts(
        request_begin(request, session),
        opening_replies(staged) + import_replies::<E>(built, outcomes),
        seq![refusal],
    );
    assert(is_hex(params.blocks_hex[outcomes.len() as int]));
    assert(seq![refusal].drop_first() =~= Seq::empty());
    reveal_with_fuel(run, 2);
}

/// A setup stops at the first block that the engine rejects, with an error
/// that names the index of the block and with nothing attached to the
/// session.
pub proof fn lemma_setup_stops_at_rejected_block<E: Engine>(
    request: RequestView,
    params: SetupParamsView,
    session: SessionView<E>,
    staged: Staged<E>,
    built: Seq<E::Block>,
    outcomes: Seq<SubmitOutcome>,
    block: E::Block,
)
    requires
        method_of(request.method) == Some(Method::ChainstateSetup),
        request.params == ParamsView::Setup(params),
        chain_type_of(params.chain_type) is Some,
        params.blocks_hex.len() <= usize::MAX,
        built.len() == outcomes.len(),
        outcomes.len() < params.blocks_hex.len(),
        forall|i: int| 0 <= i <= outcomes.len() ==> is_hex(#[trigger] params.blocks_hex[i]),
        forall|i: int|
            0 <= i < outcomes.len() ==> #[trigger] outcomes[i] != SubmitOutcome::Rejected,
    ensures
        run(
            request_begin(request, session),
            opening_replies(staged) + import_replies::<E>(built, outcomes) + seq![
                EngineReplyView::BlockBuilt(Ok(block)),
                EngineReplyView::Submitted(SubmitOutcome::Rejected),
            ],
        ) == (ProgressView::Done {
            response: ResponseView::error(
                request.id,
                ERR_KERNEL@,
                "Failed to process block at index "@ + decimal(outcomes.len()),
            ),
            session: SessionView::<E>::empty(),
        }),
{
    lemma_setup_imports_in_order(request, params, session, staged, built, outcomes);
    let build = EngineReplyView::<E>::BlockBuilt(Ok(block));
    let reject = EngineReplyView::<E>::Submitted(SubmitOutcome::Rejected);
    lemma_run_in_parts(
        request_begin(request, session),
        opening_replies(staged) + import_replies::<E>(built, outcomes),
        seq![build, reject],
    );
    assert(is_hex(params.blocks_hex[outcomes.len() as int]));
    assert(seq![build, reject].drop_first() =~= seq![reject]);
    assert(seq![reject].drop_first() =~= Seq::empty());
    reveal_with_fuel(run, 3);
}

/// A block that was sent as lower-case hex and that the engine hands back
/// byte for byte is reported in the very text in which it was sent.
pub proof fn lemma_block_reads_back_as_sent<E: Engine>(
    pending: PendingView<E>,
    read: ReadRunView<E>,
    block: E::Block,
    height: i32,
    sent: Seq<char>,
)
    requires
        pending.work == WorkView::Read(read),
        read.stage == (ReadStage::<E>::Encode { block, height }),
        is_lower_hex(sent),
    ensures
        pending.resume(EngineReplyView::BlockEncoded(Ok(hex_bytes(sent))))
            == (ProgressView::Done {
            response: ResponseView::success(
                read.id,
                PayloadView::Block { block_hex: sent, height },
            ),
            session: pending.session,
        }),
{
    lemma_lower_hex_survives(sent);
}

/// The most calls into the engine that a waiting request still needs: two
/// for every block of a setup that is not in yet, and one for every other
/// step.
pub open spec fn calls_left<E: Engine>(pending: PendingView<E>) -> nat {
    match pending.work {
        WorkView::Setup(setup) => {
            let blocks = setup.blocks.len();
            match setup.stage {
                SetupStageView::Scratch => 2 * blocks + 5,
                SetupStageView::Context { .. } => 2 * blocks + 4,
                SetupStageView::Manager { .. } => 2 * blocks + 3,
                SetupStageView::Databases { .. } => 2 * blocks + 2,
                SetupStageView::BlockBuild { index, .. } => (2 * (blocks - index) + 1) as nat,
                SetupStageView::BlockSubmit { index, .. } => (2 * (blocks - index)) as nat,
                SetupStageView::Tip { .. } => 1,
            }
        },
        WorkView::Read(read) => match read.stage {
            ReadStage::Lookup { .. } => 2,
            ReadStage::Encode { .. } => 1,
        },
        WorkView::Verify(verify) => match verify.stage {
            VerifyStageView::Script { .. } => 3,
            VerifyStageView::Transaction { .. } => 2,
            VerifyStageView::Verify { .. } => 1,
        },
    }
}

/// Every reply of the engine brings the answer nearer: the request is
/// answered, or it needs fewer calls than before.
pub proof fn lemma_reply_brings_the_answer_nearer<E: Engine>(
    pending: PendingView<E>,
    reply: EngineReplyView<E>,
)
    requires
        pending.well_formed(),
    ensures
        calls_left(pending) > 0,
        pending.resume(reply) matches ProgressView::Waiting(next) ==> calls_left(next)
            < calls_left(pending),
{
}

/// A request is answered after no more calls into the engine than
/// `calls_left` says, however the engine replies: no request waits forever
/// on an engine that returns.
pub proof fn lemma_request_is_answered<E: Engine>(
    pending: PendingView<E>,
    replies: Seq<EngineReplyView<E>>,
)
    requires
        pending.well_formed(),
        replies.len() >= calls_left(pending),
    ensures
        run(ProgressView::Waiting(pending), replies) is Done,
    decreases replies.len(),
{
    reveal_with_fuel(run, 2);
    lemma_reply_brings_the_answer_nearer(pending, replies[0]);
    lemma_resume_stands_well(pending, replies[0]);
    match pending.resume(replies[0]) {
        ProgressView::Done { .. } => {},
        ProgressView::Waiting(next) => {
            lemma_request_is_answered(next, replies.drop_first());
        },
    }
}

} // verus!
