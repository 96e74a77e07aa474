//! The side of the one who asks: the requests for the three methods, and
//! what an answer means.

use crate::error::{result_view, A2AError, A2AErrorView, A2AResult};
use crate::wire::envelope::law_response_round_trip;
use crate::json::{Json, JsonView};
use crate::server::{reply_for, success_response};
use crate::types::{
    random_id, CancelTaskRequest, GetTaskRequest, JsonRpcResponse, JsonRpcResponseView, Message,
    MessageView, Part, PartView, RequestView, SendTaskRequest, Task, TaskIdParams,
    TaskIdParamsView, TaskQueryParams, TaskQueryParamsView, TaskSendParams, TaskSendParamsView,
    TaskView, TextPart, TextPartView,
};
use crate::wire::tasks::law_task_round_trip;
use vstd::prelude::*;

verus! {

/// A message of the user that holds one text part with the given text.
pub open spec fn user_text(text: Seq<char>) -> MessageView {
    MessageView {
        role: "user"@,
        parts: seq![
            PartView::Text(TextPartView { part_type: "text"@, text, metadata: None }),
        ],
        metadata: None,
    }
}

/// The request that sends `text` as a message of the user to a task.
pub open spec fn send_request(
    request_id: Seq<char>,
    task_id: Seq<char>,
    session_id: Seq<char>,
    text: Seq<char>,
) -> RequestView<TaskSendParamsView> {
    RequestView {
        jsonrpc: "2.0"@,
        id: Some(request_id),
        method: "tasks/send"@,
        params: TaskSendParamsView {
            id: task_id,
            session_id: Some(session_id),
            message: user_text(text),
            history_length: None,
            metadata: None,
        },
    }
}

/// The request for the task with an id.
pub open spec fn get_request(request_id: Seq<char>, task_id: Seq<char>) -> RequestView<
    TaskQueryParamsView,
> {
    RequestView {
        jsonrpc: "2.0"@,
        id: Some(request_id),
        method: "tasks/get"@,
        params: TaskQueryParamsView { id: task_id, history_length: None, metadata: None },
    }
}

/// The request to cancel the task with an id.
pub open spec fn cancel_request(request_id: Seq<char>, task_id: Seq<char>) -> RequestView<
    TaskIdParamsView,
> {
    RequestView {
        jsonrpc: "2.0"@,
        id: Some(request_id),
        method: "tasks/cancel"@,
        params: TaskIdParamsView { id: task_id, metadata: None },
    }
}

/// What a response means to the one who asked: its error if it has one,
/// else its result, and an error of its own if it has neither.
pub open spec fn meaning<T>(response: JsonRpcResponseView<T>) -> Result<T, A2AErrorView> {
    match response.error {
        Some(error) => Err(A2AErrorView::InvalidRequest(error.message)),
        None => match response.result {
            Some(result) => Ok(result),
            None => Err(A2AErrorView::InvalidRequest("No result in response"@)),
        },
    }
}

/// What the body of a response means to the one who asked for a task.
pub open spec fn body_meaning(body: JsonView) -> Result<TaskView, A2AErrorView> {
    match JsonRpcResponseView::<TaskView>::from_json(body) {
        Some(response) => meaning(response),
        None => Err(A2AErrorView::SerializationError("the response does not read"@)),
    }
}

/// Builds the request that sends `text` as a message of the user to the
/// task `task_id` of the session `session_id`.
pub fn send_task_request(request_id: String, task_id: String, session_id: String, text: &str) -> (r:
    SendTaskRequest)
    ensures
        r@ == send_request(request_id@, task_id@, session_id@, text@),
{
    let mut parts: Vec<Part> = Vec::new();
    parts.push(
        Part::Text(
            TextPart {
                part_type: String::from_str("text"),
                text: String::from_str(text),
                metadata: None,
            },
        ),
    );
    assert(parts.deep_view() =~= user_text(text@).parts);
    SendTaskRequest {
        jsonrpc: String::from_str("2.0"),
        id: Some(request_id),
        method: String::from_str("tasks/send"),
        params: TaskSendParams {
            id: task_id,
            session_id: Some(session_id),
            message: Message { role: String::from_str("user"), parts, metadata: None },
            history_length: None,
            metadata: None,
        },
    }
}

/// Builds the request for the task `task_id`.
pub fn get_task_request(request_id: String, task_id: &str) -> (r: GetTaskRequest)
    ensures
        r@ == get_request(request_id@, task_id@),
{
    GetTaskRequest {
        jsonrpc: String::from_str("2.0"),
        id: Some(request_id),
        method: String::from_str("tasks/get"),
        params: TaskQueryParams {
            id: String::from_str(task_id),
            history_length: None,
            metadata: None,
        },
    }
}

/// Builds the request to cancel the task `task_id`.
pub fn cancel_task_request(request_id: String, task_id: &str) -> (r: CancelTaskRequest)
    ensures
        r@ == cancel_request(request_id@, task_id@),
{
    CancelTaskRequest {
        jsonrpc: String::from_str("2.0"),
        id: Some(request_id),
        method: String::from_str("tasks/cancel"),
        params: TaskIdParams { id: String::from_str(task_id), metadata: None },
    }
}

/// Builds a request that sends `text` to a new task of a new session, with
/// freshly drawn ids for the request, the task and the session.
pub fn new_send_task_request(text: &str) -> (r: SendTaskRequest)
    ensures
        r.id is Some,
        r.params.session_id is Some,
        r@ == send_request(r.id->Some_0@, r.params.id@, r.params.session_id->Some_0@, text@),
{
    send_task_request(random_id(), random_id(), random_id(), text)
}

/// Builds a request for the task `task_id`, with a freshly drawn id for the
/// request.
pub fn new_get_task_request(task_id: &str) -> (r: GetTaskRequest)
    ensures
        r.id is Some,
        r@ == get_request(r.id->Some_0@, task_id@),
{
    get_task_request(random_id(), task_id)
}

/// Builds a request to cancel the task `task_id`, with a freshly drawn id
/// for the request.
pub fn new_cancel_task_request(task_id: &str) -> (r: CancelTaskRequest)
    ensures
        r.id is Some,
        r@ == cancel_request(r.id->Some_0@, task_id@),
{
    cancel_task_request(random_id(), task_id)
}

/// The error for an exchange that ended with an HTTP status other than
/// success.
pub fn http_failure(status: &str) -> (e: A2AError)
    ensures
        e@ == A2AErrorView::InvalidRequest("HTTP error: "@ + status@),
{
    let mut detail = String::from_str("HTTP error: ");
    detail.append(status);
    A2AError::InvalidRequest(detail)
}

/// Takes the result out of a response, or says why there is none.
pub fn extract_result<T: DeepView>(response: JsonRpcResponse<T>) -> (r: A2AResult<T>)
    ensures
        result_view(r) == meaning(response@),
{
    let JsonRpcResponse { jsonrpc: _, id: _, result, error } = response;
    match error {
        Some(error) => Err(A2AError::InvalidRequest(error.message)),
        None => match result {
            Some(result) => Ok(result),
            None => Err(A2AError::InvalidRequest(String::from_str("No result in response"))),
        },
    }
}

/// Reads the body of a response to a request for a task, and takes the
/// task out of it.
pub fn read_response(body: &Json) -> (r: A2AResult<Task>)
    ensures
        result_view(r) == body_meaning(body@),
{
    match JsonRpcResponse::<Task>::from_json(body) {
        Some(response) => extract_result(response),
        None => Err(A2AError::SerializationError(String::from_str("the response does not read"))),
    }
}

/// What an HTTP exchange means to the one who asked for a task: what its
/// body means if the status says that it succeeded, and else that it failed
/// with that status.
pub open spec fn reply_meaning(success: bool, status: Seq<char>, body: JsonView) -> Result<
    TaskView,
    A2AErrorView,
> {
    if success {
        body_meaning(body)
    } else {
        Err(A2AErrorView::InvalidRequest("HTTP error: "@ + status))
    }
}

/// Reads the answer of an HTTP exchange: `success` says whether its status
/// is one of success, `status` is the status as text, and `body` is what
/// came with it.
pub fn read_reply(success: bool, status: &str, body: &Json) -> (r: A2AResult<Task>)
    ensures
        result_view(r) == reply_meaning(success, status@, body@),
{
    if success {
        read_response(body)
    } else {
        Err(http_failure(status))
    }
}

/// Who reads the answer of the server learns what the request led to: the
/// task, if the request succeeded and the instant of the task is read back
/// from its text, and else the message of the failure.
pub proof fn law_answer_is_understood(id: Option<Seq<char>>, result: Result<TaskView, A2AErrorView>)
    requires
        result matches Ok(task) ==> task.status.timestamp.reads_back(),
    ensures
        body_meaning(reply_for(id, result).body) == match result {
            Ok(task) => Ok::<TaskView, A2AErrorView>(task),
            Err(e) => Err(A2AErrorView::InvalidRequest(e.rpc_message())),
        },
{
    match result {
        Ok(task) => {
            law_task_round_trip(task);
            law_response_round_trip(success_response(id, task));
        },
        Err(e) => {
            law_response_round_trip(e.response::<TaskView>(id));
        },
    }
}

} // verus!
