//! The wire protocol's envelope: requests, responses, error objects and the
//! closed set of error codes.

use crate::chainstate::{ReadBlockParams, SetupParams, SetupParamsView};
use crate::script_pubkey::{VerifyParams, VerifyParamsView};
use crate::text::join;
use vstd::prelude::*;
use vstd::string::StringExecFns;

verus! {

/// The inbound line could not be read as a request at all.
pub const ERR_INVALID_REQUEST: &'static str = "INVALID_REQUEST";

/// The operation name is not one this bridge serves.
pub const ERR_METHOD_NOT_FOUND: &'static str = "METHOD_NOT_FOUND";

/// The parameters do not have the operation's shape, or hold a value the
/// operation cannot use.
pub const ERR_INVALID_PARAMS: &'static str = "INVALID_PARAMS";

/// The engine reported a failure other than a script that does not verify.
pub const ERR_KERNEL: &'static str = "KERNEL_ERROR";

/// The engine reported that the script does not validate the input.
pub const ERR_SCRIPT_VERIFY: &'static str = "SCRIPT_VERIFY_ERROR";

/// The session was misused, or a fault was caught while serving a request.
pub const ERR_INTERNAL: &'static str = "INTERNAL_ERROR";

/// Whether `code` is one of the six codes a response may carry.
pub open spec fn is_error_code(code: Seq<char>) -> bool {
    ||| code == ERR_INVALID_REQUEST@
    ||| code == ERR_METHOD_NOT_FOUND@
    ||| code == ERR_INVALID_PARAMS@
    ||| code == ERR_KERNEL@
    ||| code == ERR_SCRIPT_VERIFY@
    ||| code == ERR_INTERNAL@
}

/// A symbolic code that callers branch on, and a message for people.
#[derive(Debug, Clone, PartialEq, Eq)]
pub struct ErrorObj {
    pub code: String,
    pub message: String,
}

/// An error object, its texts as sequences of characters.
pub struct ErrorObjView {
    pub code: Seq<char>,
    pub message: Seq<char>,
}

impl View for ErrorObj {
    type V = ErrorObjView;

    open spec fn view(&self) -> ErrorObjView {
        ErrorObjView { code: self.code@, message: self.message@ }
    }
}

/// What a successful operation reports.
#[derive(Debug, Clone, PartialEq, Eq)]
pub enum Payload {
    /// A chain was set up: how many of the submitted blocks were new to the
    /// engine, and the height of the resulting tip.
    ChainReady { blocks_imported: usize, tip_height: i32 },
    /// A block was read: its canonical encoding in hex, and its height.
    Block { block_hex: String, height: i32 },
    /// The session was torn down.
    TornDown { success: bool },
    /// A script was verified.
    Verified { valid: bool },
}

/// A result, its texts as sequences of characters.
pub enum PayloadView {
    ChainReady { blocks_imported: usize, tip_height: i32 },
    Block { block_hex: Seq<char>, height: i32 },
    TornDown { success: bool },
    Verified { valid: bool },
}

impl View for Payload {
    type V = PayloadView;

    open spec fn view(&self) -> PayloadView {
        match *self {
            Payload::ChainReady { blocks_imported, tip_height } => PayloadView::ChainReady {
                blocks_imported,
                tip_height,
            },
            Payload::Block { block_hex, height } => PayloadView::Block {
                block_hex: block_hex@,
                height,
            },
            Payload::TornDown { success } => PayloadView::TornDown { success },
            Payload::Verified { valid } => PayloadView::Verified { valid },
        }
    }
}

/// The answer to one request: the request's identifier and either a result
/// or an error.
#[derive(Debug, Clone, PartialEq, Eq)]
pub struct Response {
    pub id: String,
    pub result: Option<Payload>,
    pub error: Option<ErrorObj>,
}

/// A response, its texts as sequences of characters.
pub struct ResponseView {
    pub id: Seq<char>,
    pub result: Option<PayloadView>,
    pub error: Option<ErrorObjView>,
}

impl ResponseView {
    /// A response carries a result or an error: never both, never neither.
    pub open spec fn well_formed(self) -> bool {
        self.result is Some <==> self.error is None
    }

    /// The response that reports `result` for the request `id`.
    pub open spec fn success(id: Seq<char>, result: PayloadView) -> ResponseView {
        ResponseView { id, result: Some(result), error: None }
    }

    /// The response that reports an error for the request `id`.
    pub open spec fn error(id: Seq<char>, code: Seq<char>, message: Seq<char>) -> ResponseView {
        ResponseView { id, result: None, error: Some(ErrorObjView { code, message }) }
    }

    /// The response to a request during which a fault was caught: an
    /// internal error under the identifier of the request, with what is
    /// known of the fault.
    pub open spec fn fault(id: Seq<char>, what: Seq<char>) -> ResponseView {
        ResponseView::error(id, ERR_INTERNAL@, "Internal error (panic): "@ + what)
    }

    /// Whether this is an error response with the given code.
    pub open spec fn fails_with(self, code: Seq<char>) -> bool {
        &&& self.result is None
        &&& self.error matches Some(e)
        &&& e.code == code
    }
}

impl View for Response {
    type V = ResponseView;

    open spec fn view(&self) -> ResponseView {
        ResponseView {
            id: self.id@,
            result: match self.result {
                Some(payload) => Some(payload@),
                None => None,
            },
            error: match self.error {
                Some(e) => Some(e@),
                None => None,
            },
        }
    }
}

impl Response {
    /// A response that carries `result` and no error.
    pub fn success(id: String, result: Payload) -> (response: Response)
        ensures
            response@ == ResponseView::success(id@, result@),
            response@.well_formed(),
    {
        Response { id, result: Some(result), error: None }
    }

    /// A response that carries an error with the given code and message, and
    /// no result.
    pub fn error(id: String, code: &str, message: String) -> (response: Response)
        ensures
            response@ == ResponseView::error(id@, code@, message@),
            response@.well_formed(),
    {
        Response { id, result: None, error: Some(ErrorObj { code: code.to_owned(), message }) }
    }

    /// The response to the request `id` during which a fault was caught: an
    /// internal error under that identifier.
    pub fn fault(id: String, what: &str) -> (response: Response)
        ensures
            response@ == ResponseView::fault(id@, what@),
    {
        Response::error(id, ERR_INTERNAL, join("Internal error (panic): ", what))
    }
}

/// The parameters of a request. On the wire they are a value without a type,
/// and each operation reads its own shape out of it. Here they are what that
/// reading gave.
#[derive(Debug, Clone, PartialEq, Eq)]
pub enum Params {
    /// Read as the parameters of a script verification.
    Verify(VerifyParams),
    /// Read as the parameters of a chain setup.
    Setup(SetupParams),
    /// Read as the parameters of a block read.
    ReadBlock(ReadBlockParams),
    /// The value does not have the shape that the operation reads; the text
    /// is what the reader said of it.
    Malformed(String),
    /// The value was not read, the operation having no parameters.
    Unread,
}

/// The parameters of a request, their texts as sequences of characters.
pub enum ParamsView {
    Verify(VerifyParamsView),
    Setup(SetupParamsView),
    ReadBlock(ReadBlockParams),
    Malformed(Seq<char>),
    Unread,
}

impl View for Params {
    type V = ParamsView;

    open spec fn view(&self) -> ParamsView {
        match *self {
            Params::Verify(p) => ParamsView::Verify(p@),
            Params::Setup(p) => ParamsView::Setup(p@),
            Params::ReadBlock(p) => ParamsView::ReadBlock(p),
            Params::Malformed(why) => ParamsView::Malformed(why@),
            Params::Unread => ParamsView::Unread,
        }
    }
}

/// What is said of parameters that were read for another operation than the
/// one that is asked for.
pub const WRONG_SHAPE: &'static str = "parameters of another operation";

/// Parameters as an operation receives them: in its own shape, or the words
/// with which they were turned down.
pub open spec fn read_params<P: View>(params: Result<P, String>) -> Result<P::V, Seq<char>> {
    match params {
        Ok(p) => Ok(p@),
        Err(why) => Err(why@),
    }
}

impl ParamsView {
    /// The parameters as a script verification takes them.
    pub open spec fn as_verify(self) -> Result<VerifyParamsView, Seq<char>> {
        match self {
            ParamsView::Verify(p) => Ok(p),
            ParamsView::Malformed(why) => Err(why),
            _ => Err(WRONG_SHAPE@),
        }
    }

    /// The parameters as a chain setup takes them.
    pub open spec fn as_setup(self) -> Result<SetupParamsView, Seq<char>> {
        match self {
            ParamsView::Setup(p) => Ok(p),
            ParamsView::Malformed(why) => Err(why),
            _ => Err(WRONG_SHAPE@),
        }
    }

    /// The parameters as a block read takes them.
    pub open spec fn as_read_block(self) -> Result<ReadBlockParams, Seq<char>> {
        match self {
            ParamsView::ReadBlock(p) => Ok(p),
            ParamsView::Malformed(why) => Err(why),
            _ => Err(WRONG_SHAPE@),
        }
    }
}

impl Params {
    /// The parameters as a script verification takes them.
    pub fn into_verify(self) -> (params: Result<VerifyParams, String>)
        ensures
            read_params(params) == self@.as_verify(),
    {
        match self {
            Params::Verify(p) => Ok(p),
            Params::Malformed(why) => Err(why),
            _ => Err(String::from_str(WRONG_SHAPE)),
        }
    }

    /// The parameters as a chain setup takes them.
    pub fn into_setup(self) -> (params: Result<SetupParams, String>)
        ensures
            read_params(params) == self@.as_setup(),
    {
        match self {
            Params::Setup(p) => Ok(p),
            Params::Malformed(why) => Err(why),
            _ => Err(String::from_str(WRONG_SHAPE)),
        }
    }

    /// The parameters as a block read takes them.
    pub fn into_read_block(self) -> (params: Result<ReadBlockParams, String>)
        ensures
            read_params(params) == self@.as_read_block(),
    {
        match self {
            Params::ReadBlock(p) => Ok(p),
            Params::Malformed(why) => Err(why),
            _ => Err(String::from_str(WRONG_SHAPE)),
        }
    }
}

/// One request: an identifier that the response repeats untouched, the name
/// of the operation, and its parameters.
#[derive(Debug, Clone, PartialEq, Eq)]
pub struct Request {
    pub id: String,
    pub method: String,
    pub params: Params,
}

/// A request, its texts as sequences of characters.
pub struct RequestView {
    pub id: Seq<char>,
    pub method: Seq<char>,
    pub params: ParamsView,
}

impl RequestView {
    /// A request holds no more blocks than can be counted.
    pub open spec fn well_formed(self) -> bool {
        self.params matches ParamsView::Setup(p) ==> p.blocks_hex.len() <= usize::MAX
    }
}

impl View for Request {
    type V = RequestView;

    open spec fn view(&self) -> RequestView {
        RequestView { id: self.id@, method: self.method@, params: self.params@ }
    }
}

/// What is said of the fault when the engine's reply does not answer the
/// call that was made.
pub const UNEXPECTED_REPLY: &'static str = "unexpected engine reply";

/// The six error codes are six different texts, so a caller that branches on
/// the code never takes one failure for another.
pub proof fn lemma_error_codes_distinct()
    ensures
        ERR_INVALID_REQUEST@ != ERR_METHOD_NOT_FOUND@,
        ERR_INVALID_REQUEST@ != ERR_INVALID_PARAMS@,
        ERR_INVALID_REQUEST@ != ERR_KERNEL@,
        ERR_INVALID_REQUEST@ != ERR_SCRIPT_VERIFY@,
        ERR_INVALID_REQUEST@ != ERR_INTERNAL@,
        ERR_METHOD_NOT_FOUND@ != ERR_INVALID_PARAMS@,
        ERR_METHOD_NOT_FOUND@ != ERR_KERNEL@,
        ERR_METHOD_NOT_FOUND@ != ERR_SCRIPT_VERIFY@,
        ERR_METHOD_NOT_FOUND@ != ERR_INTERNAL@,
        ERR_INVALID_PARAMS@ != ERR_KERNEL@,
        ERR_INVALID_PARAMS@ != ERR_SCRIPT_VERIFY@,
        ERR_INVALID_PARAMS@ != ERR_INTERNAL@,
        ERR_KERNEL@ != ERR_SCRIPT_VERIFY@,
        ERR_KERNEL@ != ERR_INTERNAL@,
        ERR_SCRIPT_VERIFY@ != ERR_INTERNAL@,
{
    reveal_strlit("INVALID_REQUEST");
    reveal_strlit("METHOD_NOT_FOUND");
    reveal_strlit("INVALID_PARAMS");
    reveal_strlit("KERNEL_ERROR");
    reveal_strlit("SCRIPT_VERIFY_ERROR");
    reveal_strlit("INTERNAL_ERROR");
    assert(ERR_INVALID_REQUEST@.len() == 15);
    assert(ERR_METHOD_NOT_FOUND@.len() == 16);
    assert(ERR_INVALID_PARAMS@.len() == 14);
    assert(ERR_KERNEL@.len() == 12);
    assert(ERR_SCRIPT_VERIFY@.len() == 19);
    assert(ERR_INTERNAL@.len() == 14);
    assert(ERR_INVALID_PARAMS@[1] == 'N');
    assert(ERR_INTERNAL@[1] == 'N');
    assert(ERR_INVALID_PARAMS@[2] == 'V');
    assert(ERR_INTERNAL@[2] == 'T');
}

} // verus!
