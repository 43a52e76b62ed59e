//! The failure taxonomy of the server, layer by layer, and the conversions
//! that bring a handler's failure to the wire.
//!
//! Three layers name their failures: the transport ([`TransportError`]), the
//! request lifecycle ([`ServerError`]) and the router ([`RouterError`]). Only
//! router errors reach a client. A failed resource lookup
//! ([`ResourceLookupError`]) is first absorbed into the router's vocabulary,
//! and a router error is then projected onto the wire error object
//! ([`WireError`]): a numeric code, a message and optional data.
//!
//! Messages are modelled as `Seq<char>`; each type that carries one has a view
//! over which the conversions are specified.

use vstd::prelude::*;
use vstd::string::*;

verus! {

// ---------------------------------------------------------------------------
// Values of other crates that pass through this one
// ---------------------------------------------------------------------------

/// `std::io::Error`, carried by [`TransportError::Io`] and never inspected.
#[verifier::external_type_specification]
#[verifier::external_body]
pub struct ExIoError(std::io::Error);

/// `std::string::FromUtf8Error`, carried by [`TransportError::Utf8`] and never
/// inspected.
#[verifier::external_type_specification]
#[verifier::external_body]
pub struct ExFromUtf8Error(std::string::FromUtf8Error);

/// `serde_json::Error`, carried by [`TransportError::Json`] and never
/// inspected.
#[verifier::external_type_specification]
#[verifier::external_body]
pub struct ExJsonError(serde_json::Error);

/// `serde_json::Value`, the type of a wire error's optional data. The
/// projection of a router error never produces one.
#[verifier::external_type_specification]
#[verifier::external_body]
pub struct ExJsonValue(serde_json::Value);

/// `tower::timeout::error::Elapsed`, the signal that a request's deadline has
/// passed. It has no content beyond the fact of expiry.
#[verifier::external_type_specification]
#[verifier::external_body]
pub struct ExElapsed(tower::timeout::error::Elapsed);

// ---------------------------------------------------------------------------
// The protocol's error codes
// ---------------------------------------------------------------------------

/// The protocol's code for a request that is not a valid one.
pub open spec fn invalid_request_code() -> int {
    -32600
}

/// The protocol's code for a method that does not exist.
pub open spec fn method_not_found_code() -> int {
    -32601
}

/// The protocol's code for parameters that were not accepted.
pub open spec fn invalid_params_code() -> int {
    -32602
}

/// The protocol's code for a failure on the server's own account.
pub open spec fn internal_error_code() -> int {
    -32603
}

/// Reads `mcp_core_fishcode2025::protocol::INVALID_REQUEST`. The protocol
/// crate defines that constant as `-32600`; this is taken on trust.
#[verifier::external_body]
fn invalid_request() -> (code: i32)
    ensures
        code == invalid_request_code(),
{
    mcp_core_fishcode2025::protocol::INVALID_REQUEST
}

/// Reads `mcp_core_fishcode2025::protocol::METHOD_NOT_FOUND`. The protocol
/// crate defines that constant as `-32601`; this is taken on trust.
#[verifier::external_body]
fn method_not_found() -> (code: i32)
    ensures
        code == method_not_found_code(),
{
    mcp_core_fishcode2025::protocol::METHOD_NOT_FOUND
}

/// Reads `mcp_core_fishcode2025::protocol::INVALID_PARAMS`. The protocol
/// crate defines that constant as `-32602`; this is taken on trust.
#[verifier::external_body]
fn invalid_params() -> (code: i32)
    ensures
        code == invalid_params_code(),
{
    mcp_core_fishcode2025::protocol::INVALID_PARAMS
}

/// Reads `mcp_core_fishcode2025::protocol::INTERNAL_ERROR`. The protocol
/// crate defines that constant as `-32603`; this is taken on trust.
#[verifier::external_body]
fn internal_error() -> (code: i32)
    ensures
        code == internal_error_code(),
{
    mcp_core_fishcode2025::protocol::INTERNAL_ERROR
}

// ---------------------------------------------------------------------------
// Transport layer
// ---------------------------------------------------------------------------

/// A failure of the byte-level exchange with a peer.
#[derive(Debug)]
pub enum TransportError {
    /// The byte stream could not be read or written.
    Io(std::io::Error),
    /// A frame's bytes are not JSON.
    Json(serde_json::Error),
    /// A frame's bytes are not UTF-8 text.
    Utf8(std::string::FromUtf8Error),
    /// A frame parsed, but breaks a rule of the protocol.
    Protocol(String),
    /// A frame cannot be recognised as a protocol message at all.
    InvalidMessage(String),
}

impl vstd::std_specs::convert::FromSpecImpl<std::io::Error> for TransportError {
    open spec fn obeys_from_spec() -> bool {
        true
    }

    open spec fn from_spec(cause: std::io::Error) -> TransportError {
        TransportError::Io(cause)
    }
}

impl From<std::io::Error> for TransportError {
    /// Wraps an I/O failure, keeping the cause as it is.
    fn from(cause: std::io::Error) -> (err: TransportError)
        ensures
            err == TransportError::Io(cause),
    {
        TransportError::Io(cause)
    }
}

impl vstd::std_specs::convert::FromSpecImpl<serde_json::Error> for TransportError {
    open spec fn obeys_from_spec() -> bool {
        true
    }

    open spec fn from_spec(cause: serde_json::Error) -> TransportError {
        TransportError::Json(cause)
    }
}

impl From<serde_json::Error> for TransportError {
    /// Wraps a JSON failure, keeping the cause as it is.
    fn from(cause: serde_json::Error) -> (err: TransportError)
        ensures
            err == TransportError::Json(cause),
    {
        TransportError::Json(cause)
    }
}

impl vstd::std_specs::convert::FromSpecImpl<std::string::FromUtf8Error> for TransportError {
    open spec fn obeys_from_spec() -> bool {
        true
    }

    open spec fn from_spec(cause: std::string::FromUtf8Error) -> TransportError {
        TransportError::Utf8(cause)
    }
}

impl From<std::string::FromUtf8Error> for TransportError {
    /// Wraps a text-decoding failure, keeping the cause as it is.
    fn from(cause: std::string::FromUtf8Error) -> (err: TransportError)
        ensures
            err == TransportError::Utf8(cause),
    {
        TransportError::Utf8(cause)
    }
}

// ---------------------------------------------------------------------------
// Request lifecycle
// ---------------------------------------------------------------------------

/// A failure in the life of one request. Each variant ends the request.
#[derive(Debug)]
pub enum ServerError {
    /// The transport failed beneath the request.
    Transport(TransportError),
    /// A handler reported a failure of its own domain.
    Service(String),
    /// A condition that should not have arisen.
    Internal(String),
    /// The deadline set for the request has passed.
    Timeout(tower::timeout::error::Elapsed),
}

impl vstd::std_specs::convert::FromSpecImpl<TransportError> for ServerError {
    open spec fn obeys_from_spec() -> bool {
        true
    }

    open spec fn from_spec(cause: TransportError) -> ServerError {
        ServerError::Transport(cause)
    }
}

impl From<TransportError> for ServerError {
    /// Raises a transport failure to the request's level, content unchanged.
    fn from(cause: TransportError) -> (err: ServerError)
        ensures
            err == ServerError::Transport(cause),
    {
        ServerError::Transport(cause)
    }
}

impl vstd::std_specs::convert::FromSpecImpl<tower::timeout::error::Elapsed> for ServerError {
    open spec fn obeys_from_spec() -> bool {
        true
    }

    open spec fn from_spec(signal: tower::timeout::error::Elapsed) -> ServerError {
        ServerError::Timeout(signal)
    }
}

impl From<tower::timeout::error::Elapsed> for ServerError {
    /// Classifies an expired deadline as a timeout.
    fn from(signal: tower::timeout::error::Elapsed) -> (err: ServerError)
        ensures
            err == ServerError::Timeout(signal),
    {
        ServerError::Timeout(signal)
    }
}

// ---------------------------------------------------------------------------
// Resource lookup
// ---------------------------------------------------------------------------

/// The failure of a resource lookup, as the lookup reports it.
#[derive(Debug)]
pub enum ResourceLookupError {
    /// No resource answers to the name.
    NotFound(String),
    /// The resource exists, but reading it failed.
    ExecutionError(String),
}

/// A [`ResourceLookupError`] with its message as a sequence of characters.
pub enum ResourceLookupErrorView {
    NotFound(Seq<char>),
    ExecutionError(Seq<char>),
}

impl View for ResourceLookupError {
    type V = ResourceLookupErrorView;

    open spec fn view(&self) -> ResourceLookupErrorView {
        match self {
            ResourceLookupError::NotFound(m) => ResourceLookupErrorView::NotFound(m@),
            ResourceLookupError::ExecutionError(m) => ResourceLookupErrorView::ExecutionError(m@),
        }
    }
}

// ---------------------------------------------------------------------------
// Router
// ---------------------------------------------------------------------------

/// A failure in the router's vocabulary: the only kind that reaches a client.
/// Each variant carries the message that the client will read.
#[derive(Debug)]
pub enum RouterError {
    MethodNotFound(String),
    InvalidParams(String),
    Internal(String),
    ToolNotFound(String),
    ResourceNotFound(String),
    PromptNotFound(String),
}

/// A [`RouterError`] with its message as a sequence of characters.
pub enum RouterErrorView {
    MethodNotFound(Seq<char>),
    InvalidParams(Seq<char>),
    Internal(Seq<char>),
    ToolNotFound(Seq<char>),
    ResourceNotFound(Seq<char>),
    PromptNotFound(Seq<char>),
}

impl RouterErrorView {
    /// The message that the error carries, whatever its variant.
    pub open spec fn message(self) -> Seq<char> {
        match self {
            RouterErrorView::MethodNotFound(m) => m,
            RouterErrorView::InvalidParams(m) => m,
            RouterErrorView::Internal(m) => m,
            RouterErrorView::ToolNotFound(m) => m,
            RouterErrorView::ResourceNotFound(m) => m,
            RouterErrorView::PromptNotFound(m) => m,
        }
    }

    /// The code under which the error goes to the wire. The three kinds of
    /// "not found" that the protocol has no code for share that of an invalid
    /// request.
    pub open spec fn code(self) -> int {
        match self {
            RouterErrorView::MethodNotFound(_) => method_not_found_code(),
            RouterErrorView::InvalidParams(_) => invalid_params_code(),
            RouterErrorView::Internal(_) => internal_error_code(),
            RouterErrorView::ToolNotFound(_) => invalid_request_code(),
            RouterErrorView::ResourceNotFound(_) => invalid_request_code(),
            RouterErrorView::PromptNotFound(_) => invalid_request_code(),
        }
    }
}

impl RouterError {
    /// The message string that the error carries, whatever its variant.
    pub open spec fn message(self) -> String {
        match self {
            RouterError::MethodNotFound(m) => m,
            RouterError::InvalidParams(m) => m,
            RouterError::Internal(m) => m,
            RouterError::ToolNotFound(m) => m,
            RouterError::ResourceNotFound(m) => m,
            RouterError::PromptNotFound(m) => m,
        }
    }
}

impl View for RouterError {
    type V = RouterErrorView;

    open spec fn view(&self) -> RouterErrorView {
        match self {
            RouterError::MethodNotFound(m) => RouterErrorView::MethodNotFound(m@),
            RouterError::InvalidParams(m) => RouterErrorView::InvalidParams(m@),
            RouterError::Internal(m) => RouterErrorView::Internal(m@),
            RouterError::ToolNotFound(m) => RouterErrorView::ToolNotFound(m@),
            RouterError::ResourceNotFound(m) => RouterErrorView::ResourceNotFound(m@),
            RouterError::PromptNotFound(m) => RouterErrorView::PromptNotFound(m@),
        }
    }
}

/// What is put before the message of a resource that failed to execute.
pub open spec fn execution_error_prefix() -> Seq<char> {
    "Resource execution error: "@
}

/// The router error that a failed resource lookup becomes. A missing resource
/// keeps its message; a failed execution becomes an internal error whose
/// message is the cause behind [`execution_error_prefix`].
pub open spec fn router_error(err: ResourceLookupErrorView) -> RouterErrorView {
    match err {
        ResourceLookupErrorView::NotFound(m) => RouterErrorView::ResourceNotFound(m),
        ResourceLookupErrorView::ExecutionError(m) => RouterErrorView::Internal(
            execution_error_prefix() + m,
        ),
    }
}

/// The message of a failed execution is a string built anew, and a
/// specification can say of a `String` only what its view is. So `from_spec`
/// is left open here, and `from` states its result over views.
impl vstd::std_specs::convert::FromSpecImpl<ResourceLookupError> for RouterError {
    open spec fn obeys_from_spec() -> bool {
        false
    }

    open spec fn from_spec(err: ResourceLookupError) -> RouterError {
        arbitrary()
    }
}

impl From<ResourceLookupError> for RouterError {
    /// Absorbs a failed resource lookup into the router's vocabulary.
    fn from(err: ResourceLookupError) -> (router: RouterError)
        ensures
            router@ == router_error(err@),
    {
        match err {
            ResourceLookupError::NotFound(msg) => RouterError::ResourceNotFound(msg),
            ResourceLookupError::ExecutionError(msg) => RouterError::Internal(
                String::from_str("Resource execution error: ").concat(msg.as_str()),
            ),
        }
    }
}

// ---------------------------------------------------------------------------
// The wire
// ---------------------------------------------------------------------------

/// The error object that a client receives.
#[derive(Debug)]
pub struct WireError {
    /// Which class of failure occurred, as one of the protocol's codes.
    pub code: i32,
    /// What went wrong, in words.
    pub message: String,
    /// Further detail, where the sender has any.
    pub data: Option<serde_json::Value>,
}

/// A [`WireError`] with its code as an integer and its message as a sequence
/// of characters.
pub struct WireErrorView {
    pub code: int,
    pub message: Seq<char>,
    pub data: Option<serde_json::Value>,
}

impl View for WireError {
    type V = WireErrorView;

    open spec fn view(&self) -> WireErrorView {
        WireErrorView { code: self.code as int, message: self.message@, data: self.data }
    }
}

/// The wire error that a router error is projected onto: the variant's code,
/// the message as it stands, and no data.
pub open spec fn wire_error(err: RouterErrorView) -> WireErrorView {
    WireErrorView { code: err.code(), message: err.message(), data: None }
}

impl vstd::std_specs::convert::FromSpecImpl<RouterError> for WireError {
    open spec fn obeys_from_spec() -> bool {
        true
    }

    open spec fn from_spec(err: RouterError) -> WireError {
        WireError { code: err@.code() as i32, message: err.message(), data: None }
    }
}

impl RouterError {
    /// Projects a router error onto the wire: the code of its variant, its
    /// message untouched, no data. No router error is refused, and the
    /// result depends on nothing but the error.
    pub fn to_wire_error(self) -> (wire: WireError)
        ensures
            wire@ == wire_error(self@),
            wire.message == self.message(),
    {
        match self {
            RouterError::MethodNotFound(msg) => WireError {
                code: method_not_found(),
                message: msg,
                data: None,
            },
            RouterError::InvalidParams(msg) => WireError {
                code: invalid_params(),
                message: msg,
                data: None,
            },
            RouterError::Internal(msg) => WireError {
                code: internal_error(),
                message: msg,
                data: None,
            },
            RouterError::ToolNotFound(msg) => WireError {
                code: invalid_request(),
                message: msg,
                data: None,
            },
            RouterError::ResourceNotFound(msg) => WireError {
                code: invalid_request(),
                message: msg,
                data: None,
            },
            RouterError::PromptNotFound(msg) => WireError {
                code: invalid_request(),
                message: msg,
                data: None,
            },
        }
    }
}

impl From<RouterError> for WireError {
    /// The projection of [`RouterError::to_wire_error`], for callers that
    /// convert with `from` or `into`.
    fn from(err: RouterError) -> (wire: WireError)
        ensures
            wire@ == wire_error(err@),
    {
        err.to_wire_error()
    }
}

// ---------------------------------------------------------------------------
// Laws of the conversions
// ---------------------------------------------------------------------------

/// Every router error has its place on the wire: it goes out under one of the
/// protocol's four codes, with the message it carried and without data.
pub proof fn lemma_every_error_reaches_the_wire(err: RouterErrorView)
    ensures
        wire_error(err).code == method_not_found_code()
            || wire_error(err).code == invalid_params_code()
            || wire_error(err).code == internal_error_code()
            || wire_error(err).code == invalid_request_code(),
        wire_error(err).message == err.message(),
        wire_error(err).data is None,
{
}

/// A tool, a resource and a prompt that are not found go to the wire under
/// one code, that of an invalid request, and each with the message it
/// carried.
pub proof fn lemma_not_found_kinds_share_code(m: Seq<char>)
    ensures
        wire_error(RouterErrorView::ToolNotFound(m)).code == invalid_request_code(),
        wire_error(RouterErrorView::ResourceNotFound(m)).code == invalid_request_code(),
        wire_error(RouterErrorView::PromptNotFound(m)).code == invalid_request_code(),
        wire_error(RouterErrorView::ToolNotFound(m)).message == m,
        wire_error(RouterErrorView::ResourceNotFound(m)).message == m,
        wire_error(RouterErrorView::PromptNotFound(m)).message == m,
{
}

/// A resource lookup that found nothing reaches the wire exactly as the
/// router's own "resource not found" with the same message does.
pub proof fn lemma_missing_resource_on_the_wire(m: Seq<char>)
    ensures
        wire_error(router_error(ResourceLookupErrorView::NotFound(m))) == wire_error(
            RouterErrorView::ResourceNotFound(m),
        ),
{
}

/// A resource whose execution failed reaches the wire as an internal error,
/// and its message is the cause, whole, behind the fixed prefix.
pub proof fn lemma_failed_execution_on_the_wire(m: Seq<char>)
    ensures
        wire_error(router_error(ResourceLookupErrorView::ExecutionError(m))).code
            == internal_error_code(),
        wire_error(router_error(ResourceLookupErrorView::ExecutionError(m))).message
            == "Resource execution error: "@ + m,
{
}

} // verus!
