//! What can go wrong, and how each error is reported: its JSON-RPC code,
//! its HTTP status and its message.

use crate::types::{JsonRpcError, JsonRpcErrorView, JsonRpcResponse, JsonRpcResponseView};
use vstd::prelude::*;

verus! {

/// Model of [`A2AError`].
pub enum A2AErrorView {
    SerializationError(Seq<char>),
    HttpError(Seq<char>),
    TaskNotFound(Seq<char>),
    InvalidRequest(Seq<char>),
    MethodNotFound(Seq<char>),
    InternalServerError(Seq<char>),
    TaskNotCancelable(Seq<char>),
    UnsupportedOperation(Seq<char>),
}

/// What can go wrong while a request is served. Each variant carries its
/// detail as text.
#[derive(Debug, PartialEq, Eq)]
pub enum A2AError {
    /// A value could not be written to or read from JSON.
    SerializationError(String),
    /// An HTTP exchange failed.
    HttpError(String),
    /// No task has the given id.
    TaskNotFound(String),
    /// The request is malformed, or is not allowed in the task's state.
    InvalidRequest(String),
    /// The request names a method that does not exist.
    MethodNotFound(String),
    /// Any other failure.
    InternalServerError(String),
    /// The task has reached a state in which it cannot be canceled.
    TaskNotCancelable(String),
    /// The agent does not offer the operation.
    UnsupportedOperation(String),
}

/// The result of an operation that can fail with an [`A2AError`].
pub type A2AResult<T> = Result<T, A2AError>;

impl DeepView for A2AError {
    type V = A2AErrorView;

    open spec fn deep_view(&self) -> A2AErrorView {
        match self {
            A2AError::SerializationError(s) => A2AErrorView::SerializationError(s@),
            A2AError::HttpError(s) => A2AErrorView::HttpError(s@),
            A2AError::TaskNotFound(s) => A2AErrorView::TaskNotFound(s@),
            A2AError::InvalidRequest(s) => A2AErrorView::InvalidRequest(s@),
            A2AError::MethodNotFound(s) => A2AErrorView::MethodNotFound(s@),
            A2AError::InternalServerError(s) => A2AErrorView::InternalServerError(s@),
            A2AError::TaskNotCancelable(s) => A2AErrorView::TaskNotCancelable(s@),
            A2AError::UnsupportedOperation(s) => A2AErrorView::UnsupportedOperation(s@),
        }
    }
}

impl View for A2AError {
    type V = A2AErrorView;

    open spec fn view(&self) -> A2AErrorView {
        self.deep_view()
    }
}

/// Model of a result: the model of the value, or that of the error.
pub open spec fn result_view<T: DeepView>(r: A2AResult<T>) -> Result<T::V, A2AErrorView> {
    match r {
        Ok(value) => Ok(value.deep_view()),
        Err(e) => Err(e@),
    }
}

impl A2AErrorView {
    /// The detail that the error carries.
    pub open spec fn detail(self) -> Seq<char> {
        match self {
            A2AErrorView::SerializationError(s) => s,
            A2AErrorView::HttpError(s) => s,
            A2AErrorView::TaskNotFound(s) => s,
            A2AErrorView::InvalidRequest(s) => s,
            A2AErrorView::MethodNotFound(s) => s,
            A2AErrorView::InternalServerError(s) => s,
            A2AErrorView::TaskNotCancelable(s) => s,
            A2AErrorView::UnsupportedOperation(s) => s,
        }
    }

    /// The words that introduce the detail in the error's description.
    pub open spec fn prefix(self) -> Seq<char> {
        match self {
            A2AErrorView::SerializationError(_) => "JSON serialization error: "@,
            A2AErrorView::HttpError(_) => "HTTP request error: "@,
            A2AErrorView::TaskNotFound(_) => "Task not found: "@,
            A2AErrorView::InvalidRequest(_) => "Invalid request: "@,
            A2AErrorView::MethodNotFound(_) => "Method not found: "@,
            A2AErrorView::InternalServerError(_) => "Internal server error: "@,
            A2AErrorView::TaskNotCancelable(_) => "Task cannot be canceled: "@,
            A2AErrorView::UnsupportedOperation(_) => "Unsupported operation: "@,
        }
    }

    /// The description of the error: its prefix, then its detail.
    pub open spec fn description(self) -> Seq<char> {
        self.prefix() + self.detail()
    }

    /// Whether the error is none of the five kinds that have a JSON-RPC code
    /// of their own.
    pub open spec fn is_internal(self) -> bool {
        self is SerializationError || self is HttpError || self is InternalServerError
    }

    /// The JSON-RPC error code of the error.
    pub open spec fn code(self) -> i32 {
        match self {
            A2AErrorView::InvalidRequest(_) => -32600i32,
            A2AErrorView::MethodNotFound(_) => -32601i32,
            A2AErrorView::TaskNotFound(_) => -32001i32,
            A2AErrorView::TaskNotCancelable(_) => -32002i32,
            A2AErrorView::UnsupportedOperation(_) => -32004i32,
            _ => -32603i32,
        }
    }

    /// The HTTP status that goes with the error.
    pub open spec fn http_status(self) -> u16 {
        match self {
            A2AErrorView::InvalidRequest(_) => 400u16,
            A2AErrorView::MethodNotFound(_) => 404u16,
            A2AErrorView::TaskNotFound(_) => 404u16,
            A2AErrorView::TaskNotCancelable(_) => 400u16,
            A2AErrorView::UnsupportedOperation(_) => 400u16,
            _ => 500u16,
        }
    }

    /// The message of the JSON-RPC error: the description, which for an
    /// error without a code of its own is introduced once more as an
    /// internal server error.
    pub open spec fn rpc_message(self) -> Seq<char> {
        if self.is_internal() {
            "Internal server error: "@ + self.description()
        } else {
            self.description()
        }
    }

    /// The JSON-RPC error that reports this error.
    pub open spec fn rpc_error(self) -> JsonRpcErrorView {
        JsonRpcErrorView { code: self.code(), message: self.rpc_message(), data: None }
    }

    /// The response that reports this error to the request with id `id`.
    pub open spec fn response<T>(self, id: Option<Seq<char>>) -> JsonRpcResponseView<T> {
        JsonRpcResponseView { jsonrpc: "2.0"@, id, result: None, error: Some(self.rpc_error()) }
    }
}

/// The code tells the five kinds with a code of their own apart, from each
/// other and from every other error, and the HTTP status follows from the
/// code.
pub proof fn law_code_tells_kind(a: A2AErrorView, b: A2AErrorView)
    requires
        a.code() == b.code(),
    ensures
        a.http_status() == b.http_status(),
        a.is_internal() == b.is_internal(),
        a is InvalidRequest == b is InvalidRequest,
        a is MethodNotFound == b is MethodNotFound,
        a is TaskNotFound == b is TaskNotFound,
        a is TaskNotCancelable == b is TaskNotCancelable,
        a is UnsupportedOperation == b is UnsupportedOperation,
{
}

impl A2AError {
    fn detail(&self) -> (r: &String)
        ensures
            r@ == self@.detail(),
    {
        match self {
            A2AError::SerializationError(s) => s,
            A2AError::HttpError(s) => s,
            A2AError::TaskNotFound(s) => s,
            A2AError::InvalidRequest(s) => s,
            A2AError::MethodNotFound(s) => s,
            A2AError::InternalServerError(s) => s,
            A2AError::TaskNotCancelable(s) => s,
            A2AError::UnsupportedOperation(s) => s,
        }
    }

    fn prefix(&self) -> (r: &'static str)
        ensures
            r@ == self@.prefix(),
    {
        match self {
            A2AError::SerializationError(_) => "JSON serialization error: ",
            A2AError::HttpError(_) => "HTTP request error: ",
            A2AError::TaskNotFound(_) => "Task not found: ",
            A2AError::InvalidRequest(_) => "Invalid request: ",
            A2AError::MethodNotFound(_) => "Method not found: ",
            A2AError::InternalServerError(_) => "Internal server error: ",
            A2AError::TaskNotCancelable(_) => "Task cannot be canceled: ",
            A2AError::UnsupportedOperation(_) => "Unsupported operation: ",
        }
    }

    /// The description of the error.
    pub fn to_string(&self) -> (r: String)
        ensures
            r@ == self@.description(),
    {
        let mut text = String::from_str(self.prefix());
        text.append(self.detail().as_str());
        text
    }

    /// The JSON-RPC error code of the error.
    pub fn code(&self) -> (r: i32)
        ensures
            r == self@.code(),
    {
        match self {
            A2AError::InvalidRequest(_) => -32600,
            A2AError::MethodNotFound(_) => -32601,
            A2AError::TaskNotFound(_) => -32001,
            A2AError::TaskNotCancelable(_) => -32002,
            A2AError::UnsupportedOperation(_) => -32004,
            _ => -32603,
        }
    }

    /// The HTTP status that goes with the error.
    pub fn http_status(&self) -> (r: u16)
        ensures
            r == self@.http_status(),
    {
        match self {
            A2AError::InvalidRequest(_) => 400,
            A2AError::MethodNotFound(_) => 404,
            A2AError::TaskNotFound(_) => 404,
            A2AError::TaskNotCancelable(_) => 400,
            A2AError::UnsupportedOperation(_) => 400,
            _ => 500,
        }
    }

    /// The message of the JSON-RPC error that reports this error.
    pub fn rpc_message(&self) -> (r: String)
        ensures
            r@ == self@.rpc_message(),
    {
        match self {
            A2AError::SerializationError(_) | A2AError::HttpError(_) | A2AError::InternalServerError(
                _,
            ) => {
                let mut text = String::from_str("Internal server error: ");
                text.append(self.to_string().as_str());
                text
            },
            _ => self.to_string(),
        }
    }

    /// The JSON-RPC error that reports this error.
    pub fn to_rpc_error(&self) -> (r: JsonRpcError)
        ensures
            r@ == self@.rpc_error(),
    {
        JsonRpcError { code: self.code(), message: self.rpc_message(), data: None }
    }

    /// Turns the error into what is sent back: the HTTP status and the
    /// response that carries the JSON-RPC error, addressed to the request
    /// with id `id`.
    pub fn into_response<T: DeepView>(self, id: Option<String>) -> (r: (u16, JsonRpcResponse<T>))
        ensures
            r.0 == self@.http_status(),
            r.1@ == self@.response::<T::V>(id.deep_view()),
            r.1@.well_formed(),
    {
        let status = self.http_status();
        let error = self.to_rpc_error();
        let response = JsonRpcResponse {
            jsonrpc: String::from_str("2.0"),
            id,
            result: None,
            error: Some(error),
        };
        (status, response)
    }
}

} // verus!
