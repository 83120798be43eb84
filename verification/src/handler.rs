//! Serving a request. A request is routed by the name of its operation and
//! served in steps: after each step the request is answered, or one call has
//! to be made into the engine and its reply handed back. The session travels
//! with the request and comes back with the response.

use crate::chainstate::{
    handle_chainstate_read_block, handle_chainstate_setup, handle_chainstate_teardown,
    read_block_begin, setup_begin, ReadRun, ReadRunView, SetupRun, SetupRunView,
};
use crate::engine::{
    Advance, AdvanceView, Engine, EngineCall, EngineCallView, EngineReply, EngineReplyView,
};
use crate::protocol::{
    read_params, PayloadView, Request, RequestView, Response, ResponseView,
    ERR_INVALID_REQUEST, ERR_METHOD_NOT_FOUND,
};
use crate::script_pubkey::{handle_script_pubkey_verify, verify_begin, VerifyRun, VerifyRunView};
use crate::state::{SessionState, SessionView};
use crate::text::{join, same_text};
use vstd::pervasive::unreached;
use vstd::prelude::*;

verus! {

/// The operations of the bridge.
#[derive(Debug, Clone, Copy, PartialEq, Eq)]
pub enum Method {
    ScriptPubkeyVerify,
    ChainstateSetup,
    ChainstateReadBlock,
    ChainstateTeardown,
}

/// The operation that a name stands for.
pub open spec fn method_of(name: Seq<char>) -> Option<Method> {
    if name == "script_pubkey.verify"@ {
        Some(Method::ScriptPubkeyVerify)
    } else if name == "chainstate.setup"@ {
        Some(Method::ChainstateSetup)
    } else if name == "chainstate.read_block"@ {
        Some(Method::ChainstateReadBlock)
    } else if name == "chainstate.teardown"@ {
        Some(Method::ChainstateTeardown)
    } else {
        None
    }
}

/// Reads the name of an operation.
pub fn parse_method(name: &str) -> (method: Option<Method>)
    ensures
        method == method_of(name@),
{
    if same_text(name, "script_pubkey.verify") {
        Some(Method::ScriptPubkeyVerify)
    } else if same_text(name, "chainstate.setup") {
        Some(Method::ChainstateSetup)
    } else if same_text(name, "chainstate.read_block") {
        Some(Method::ChainstateReadBlock)
    } else if same_text(name, "chainstate.teardown") {
        Some(Method::ChainstateTeardown)
    } else {
        None
    }
}

/// The operation that waits for the engine.
pub enum Work<E: Engine> {
    Setup(SetupRun<E>),
    Read(ReadRun<E>),
    Verify(VerifyRun<E>),
}

/// The operation that waits for the engine, as contracts speak of it.
pub enum WorkView<E: Engine> {
    Setup(SetupRunView<E>),
    Read(ReadRunView<E>),
    Verify(VerifyRunView<E>),
}

impl<E: Engine> View for Work<E> {
    type V = WorkView<E>;

    open spec fn view(&self) -> WorkView<E> {
        match *self {
            Work::Setup(run) => WorkView::Setup(run@),
            Work::Read(run) => WorkView::Read(run@),
            Work::Verify(run) => WorkView::Verify(run@),
        }
    }
}

/// A request that waits for the engine, and the session it is served on.
pub struct Pending<E: Engine> {
    session: SessionState<E>,
    work: Work<E>,
}

/// A request that waits for the engine, as contracts speak of it.
pub struct PendingView<E: Engine> {
    pub session: SessionView<E>,
    pub work: WorkView<E>,
}

impl<E: Engine> View for Pending<E> {
    type V = PendingView<E>;

    closed spec fn view(&self) -> PendingView<E> {
        PendingView { session: self.session@, work: self.work@ }
    }
}

/// Where the serving of a request stands.
pub enum Progress<E: Engine> {
    /// The request is answered; the session is as the request left it.
    Done { response: Response, session: SessionState<E> },
    /// The engine has to be asked what `Pending::call` says.
    Waiting(Pending<E>),
}

/// Where the serving of a request stands, as contracts speak of it.
pub enum ProgressView<E: Engine> {
    Done { response: ResponseView, session: SessionView<E> },
    Waiting(PendingView<E>),
}

impl<E: Engine> View for Progress<E> {
    type V = ProgressView<E>;

    open spec fn view(&self) -> ProgressView<E> {
        match *self {
            Progress::Done { response, session } => ProgressView::Done {
                response: response@,
                session: session@,
            },
            Progress::Waiting(pending) => ProgressView::Waiting(pending@),
        }
    }
}

/// An operation's step as a step of the request, on the session `session`.
pub open spec fn on_session<E: Engine>(
    advance: AdvanceView<WorkView<E>>,
    session: SessionView<E>,
) -> ProgressView<E> {
    match advance {
        AdvanceView::Done(response) => ProgressView::Done { response, session },
        AdvanceView::Next(work) => ProgressView::Waiting(PendingView { session, work }),
    }
}

/// A setup's step as an operation's step.
pub open spec fn as_setup<E: Engine>(advance: AdvanceView<SetupRunView<E>>) -> AdvanceView<
    WorkView<E>,
> {
    match advance {
        AdvanceView::Done(response) => AdvanceView::Done(response),
        AdvanceView::Next(run) => AdvanceView::Next(WorkView::Setup(run)),
    }
}

/// A read's step as an operation's step.
pub open spec fn as_read<E: Engine>(advance: AdvanceView<ReadRunView<E>>) -> AdvanceView<
    WorkView<E>,
> {
    match advance {
        AdvanceView::Done(response) => AdvanceView::Done(response),
        AdvanceView::Next(run) => AdvanceView::Next(WorkView::Read(run)),
    }
}

/// A verification's step as an operation's step.
pub open spec fn as_verify<E: Engine>(advance: AdvanceView<VerifyRunView<E>>) -> AdvanceView<
    WorkView<E>,
> {
    match advance {
        AdvanceView::Done(response) => AdvanceView::Done(response),
        AdvanceView::Next(run) => AdvanceView::Next(WorkView::Verify(run)),
    }
}

/// How a request is served. An operation that is not known is answered with
/// an error and leaves the session alone. A setup empties the session before
/// anything else happens. A teardown empties the session and succeeds.
pub open spec fn request_begin<E: Engine>(
    request: RequestView,
    session: SessionView<E>,
) -> ProgressView<E> {
    match method_of(request.method) {
        None => ProgressView::Done {
            response: ResponseView::error(
                request.id,
                ERR_METHOD_NOT_FOUND@,
                "Unknown method: "@ + request.method,
            ),
            session,
        },
        Some(Method::ScriptPubkeyVerify) => on_session(
            as_verify(verify_begin::<E>(request.id, request.params.as_verify())),
            session,
        ),
        Some(Method::ChainstateSetup) => on_session(
            as_setup(setup_begin::<E>(request.id, request.params.as_setup())),
            SessionView::empty(),
        ),
        Some(Method::ChainstateReadBlock) => on_session(
            as_read(read_block_begin(request.id, request.params.as_read_block(), session)),
            session,
        ),
        Some(Method::ChainstateTeardown) => ProgressView::Done {
            response: ResponseView::success(request.id, PayloadView::TornDown { success: true }),
            session: SessionView::empty(),
        },
    }
}

/// How a line is served that was, or was not, read as a request. A line that
/// is no request is answered with an error that bears no identifier, and
/// nothing else happens.
pub open spec fn line_begin<E: Engine>(
    line: Result<RequestView, Seq<char>>,
    session: SessionView<E>,
) -> ProgressView<E> {
    match line {
        Err(why) => ProgressView::Done {
            response: ResponseView::error(
                Seq::empty(),
                ERR_INVALID_REQUEST@,
                "Failed to parse JSON: "@ + why,
            ),
            session,
        },
        Ok(request) => request_begin(request, session),
    }
}

impl<E: Engine> PendingView<E> {
    /// A read waits only on a session that has an active chain, a setup is
    /// within its blocks, and the session keeps its own rule.
    pub open spec fn well_formed(self) -> bool {
        &&& self.session.well_formed()
        &&& self.work is Read ==> self.session.active()
        &&& self.work matches WorkView::Setup(run) ==> run.well_formed()
    }

    /// What the engine is asked.
    pub open spec fn call(self) -> EngineCallView<E> {
        match self.work {
            WorkView::Setup(run) => run.call(),
            WorkView::Read(run) => run.call(self.session.chainstate_manager.unwrap()),
            WorkView::Verify(run) => run.call(),
        }
    }

    /// What follows from the engine's reply. Only the end of a setup changes
    /// the session, which then holds the resources of the new chain.
    pub open spec fn resume(self, reply: EngineReplyView<E>) -> ProgressView<E> {
        match self.work {
            WorkView::Setup(run) => on_session(
                as_setup(run.resume(reply)),
                match run.attaches(reply) {
                    Some(staged) => SessionView::holding(
                        staged.manager,
                        staged.context,
                        staged.scratch,
                    ),
                    None => self.session,
                },
            ),
            WorkView::Read(run) => on_session(as_read(run.resume(reply)), self.session),
            WorkView::Verify(run) => on_session(as_verify(run.resume(reply)), self.session),
        }
    }
}

/// Serves a request on a session, as far as it goes without the engine.
pub fn handle_request<E: Engine>(request: Request, session: SessionState<E>) -> (progress:
    Progress<E>)
    ensures
        progress@ == request_begin(request@, session@),
        method_of(request@.method) is None ==> progress@ == (ProgressView::Done {
            response: ResponseView::error(
                request@.id,
                ERR_METHOD_NOT_FOUND@,
                "Unknown method: "@ + request@.method,
            ),
            session: session@,
        }),
{
    let Request { id, method, params } = request;
    let mut session = session;
    match parse_method(method.as_str()) {
        None => Progress::Done {
            response: Response::error(
                id,
                ERR_METHOD_NOT_FOUND,
                join("Unknown method: ", method.as_str()),
            ),
            session,
        },
        Some(Method::ScriptPubkeyVerify) => {
            match handle_script_pubkey_verify(id, params.into_verify()) {
                Advance::Done(response) => Progress::Done { response, session },
                Advance::Next(run) => Progress::Waiting(Pending { session, work: Work::Verify(run) }),
            }
        },
        Some(Method::ChainstateSetup) => {
            match handle_chainstate_setup(id, params.into_setup(), &mut session) {
                Advance::Done(response) => Progress::Done { response, session },
                Advance::Next(run) => Progress::Waiting(Pending { session, work: Work::Setup(run) }),
            }
        },
        Some(Method::ChainstateReadBlock) => {
            match handle_chainstate_read_block(id, params.into_read_block(), &session) {
                Advance::Done(response) => Progress::Done { response, session },
                Advance::Next(run) => Progress::Waiting(Pending { session, work: Work::Read(run) }),
            }
        },
        Some(Method::ChainstateTeardown) => {
            let response = handle_chainstate_teardown(id, &mut session);
            Progress::Done { response, session }
        },
    }
}

/// Serves a line that was, or was not, read as a request: `Err` holds what
/// the reader said of a line that is no request.
pub fn handle_line<E: Engine>(line: Result<Request, String>, session: SessionState<E>) -> (progress:
    Progress<E>)
    ensures
        progress@ == line_begin(read_params(line), session@),
        line matches Err(why) ==> progress@ == (ProgressView::Done {
            response: ResponseView::error(
                Seq::empty(),
                ERR_INVALID_REQUEST@,
                "Failed to parse JSON: "@ + why@,
            ),
            session: session@,
        }),
{
    match line {
        Err(why) => Progress::Done {
            response: Response::error(
                String::new(),
                ERR_INVALID_REQUEST,
                join("Failed to parse JSON: ", why.as_str()),
            ),
            session,
        },
        Ok(request) => handle_request(request, session),
    }
}

impl<E: Engine> Pending<E> {
    #[verifier::type_invariant]
    spec fn chain_at_hand(self) -> bool {
        self.work is Read ==> self.session@.active()
    }

    /// The call that has to be made into the engine now.
    pub fn call(&self) -> (call: EngineCall<'_, E>)
        ensures
            call@ == self@.call(),
    {
        proof {
            use_type_invariant(self);
        }
        match &self.work {
            Work::Setup(run) => run.call(),
            Work::Read(run) => match self.session.chainstate_manager() {
                Some(manager) => run.call(manager),
                None => unreached(),
            },
            Work::Verify(run) => run.call(),
        }
    }

    /// Takes the engine's reply to the call that `call` named and says where
    /// the request stands then.
    pub fn resume(self, reply: EngineReply<E>) -> (progress: Progress<E>)
        ensures
            progress@ == self@.resume(reply@),
    {
        proof {
            use_type_invariant(&self);
        }
        let Pending { session, work } = self;
        let mut session = session;
        match work {
            Work::Setup(run) => match run.resume(reply, &mut session) {
                Advance::Done(response) => Progress::Done { response, session },
                Advance::Next(run) => Progress::Waiting(Pending { session, work: Work::Setup(run) }),
            },
            Work::Read(run) => match run.resume(reply) {
                Advance::Done(response) => Progress::Done { response, session },
                Advance::Next(run) => Progress::Waiting(Pending { session, work: Work::Read(run) }),
            },
            Work::Verify(run) => match run.resume(reply) {
                Advance::Done(response) => Progress::Done { response, session },
                Advance::Next(run) => Progress::Waiting(Pending { session, work: Work::Verify(run) }),
            },
        }
    }
}

} // verus!
