//! JSON-RPC requests, responses and errors on the wire.

use crate::json::{find_member, lemma_lookup_push, lookup, Json, JsonView, MembersView};
use crate::types::{
    CancelTaskRequest, GetTaskRequest, JsonRpcError, JsonRpcErrorView, JsonRpcResponse,
    JsonRpcResponseView, Message, MessageView, RequestView, SendTaskRequest, Task, TaskIdParams,
    TaskIdParamsView, TaskQueryParams, TaskQueryParamsView, TaskSendParams, TaskSendParamsView,
    TaskView,
};
use crate::wire::fields::{
    get_opt_i32, get_opt_object, get_opt_string, get_string, i32_json, lemma_lookup_with_optional,
    members_of, no_members, object, object_json, opt_i32, opt_object, opt_string, optional_i32,
    optional_object, optional_string, optional_with, put, put_optional, required_string,
    required_with, string, string_json, with_optional,
};
use crate::wire::tasks::{law_message_round_trip, law_task_round_trip};
use vstd::prelude::*;

verus! {

/// A value as a document, or `null` if there is none.
pub open spec fn or_null(value: Option<JsonView>) -> JsonView {
    match value {
        Some(v) => v,
        None => JsonView::Null,
    }
}

/// The 32-bit integer bound to `key`, which has to be there.
pub open spec fn required_i32(members: MembersView, key: Seq<char>) -> Option<i32> {
    match lookup(members, key) {
        Some(JsonView::Integer(n)) => if i32::MIN <= n <= i32::MAX {
            Some(n as i32)
        } else {
            None
        },
        _ => None,
    }
}

/// The document bound to `key`, if any: a key that is missing or bound to
/// `null` stands for none.
pub open spec fn optional_json(members: MembersView, key: Seq<char>) -> Option<JsonView> {
    match lookup(members, key) {
        None => None,
        Some(JsonView::Null) => None,
        Some(j) => Some(j),
    }
}

fn opt_string_or_null(text: &Option<String>) -> (j: Json)
    ensures
        j@ == or_null(string_json(text.deep_view())),
{
    match text {
        Some(s) => Json::String(s.clone()),
        None => Json::Null,
    }
}

impl JsonRpcErrorView {
    /// An error on the wire: an object with its code, its message and its
    /// data, which is `null` if it has none.
    pub open spec fn to_json(self) -> JsonView {
        JsonView::Object(
            Seq::<(Seq<char>, JsonView)>::empty().push(
                ("code"@, JsonView::Integer(self.code as int)),
            ).push(("message"@, JsonView::String(self.message))).push(
                ("data"@, or_null(self.data)),
            ),
        )
    }

    /// The error that a document stands for.
    pub open spec fn from_json(j: JsonView) -> Option<JsonRpcErrorView> {
        match j {
            JsonView::Object(members) => match (
                required_i32(members, "code"@),
                required_string(members, "message"@),
            ) {
                (Some(code), Some(message)) => Some(
                    JsonRpcErrorView { code, message, data: optional_json(members, "data"@) },
                ),
                _ => None,
            },
            _ => None,
        }
    }
}

impl JsonRpcError {
    /// Writes the error as a document.
    pub fn to_json(&self) -> (j: Json)
        ensures
            j@ == self@.to_json(),
    {
        let data = match &self.data {
            Some(d) => d.clone(),
            None => Json::Null,
        };
        let mut members = no_members();
        put(&mut members, "code", Json::Int(self.code as i64));
        put(&mut members, "message", string(self.message.as_str()));
        put(&mut members, "data", data);
        object(members)
    }

    /// Reads an error from a document.
    pub fn from_json(j: &Json) -> (r: Option<JsonRpcError>)
        ensures
            r.deep_view() == JsonRpcErrorView::from_json(j@),
    {
        let members = match members_of(j) {
            Some(members) => members,
            None => return None,
        };
        let code = match get_opt_i32(members, "code") {
            Some(Some(n)) => n,
            _ => return None,
        };
        let message = match get_string(members, "message") {
            Some(v) => v,
            None => return None,
        };
        let data = match find_member(members, "data") {
            None => None,
            Some(Json::Null) => None,
            Some(found) => Some(found.clone()),
        };
        Some(JsonRpcError { code, message, data })
    }
}

/// A task as a document, if there is one. The outer `None` says that there
/// is a task which cannot be written.
pub open spec fn result_json(result: Option<TaskView>) -> Option<Option<JsonView>> {
    match result {
        Some(task) => match task.to_json() {
            Some(j) => Some(Some(j)),
            None => None,
        },
        None => Some(None),
    }
}

/// An error as a document, if there is one.
pub open spec fn error_json(error: Option<JsonRpcErrorView>) -> Option<JsonView> {
    match error {
        Some(e) => Some(e.to_json()),
        None => None,
    }
}

impl JsonRpcResponseView<TaskView> {
    /// A response on the wire: an object with the version, the id of the
    /// request or `null`, and the result or the error, whichever there is.
    /// There is none if the result cannot be written.
    pub open spec fn to_json(self) -> Option<JsonView> {
        match result_json(self.result) {
            Some(result) => Some(
                JsonView::Object(
                    with_optional(
                        with_optional(
                            Seq::<(Seq<char>, JsonView)>::empty().push(
                                ("jsonrpc"@, JsonView::String(self.jsonrpc)),
                            ).push(("id"@, or_null(string_json(self.id)))),
                            "result"@,
                            result,
                        ),
                        "error"@,
                        error_json(self.error),
                    ),
                ),
            ),
            None => None,
        }
    }

    /// The response that a document stands for.
    pub open spec fn from_json(j: JsonView) -> Option<JsonRpcResponseView<TaskView>> {
        match j {
            JsonView::Object(members) => match (
                required_string(members, "jsonrpc"@),
                optional_string(members, "id"@),
                optional_with(members, "result"@, |v: JsonView| TaskView::from_json(v)),
                optional_with(members, "error"@, |v: JsonView| JsonRpcErrorView::from_json(v)),
            ) {
                (Some(jsonrpc), Some(id), Some(result), Some(error)) => Some(
                    JsonRpcResponseView { jsonrpc, id, result, error },
                ),
                _ => None,
            },
            _ => None,
        }
    }
}

impl JsonRpcResponse<Task> {
    /// Writes the response as a document.
    pub fn to_json(&self) -> (j: Json)
        ensures
            Some(j@) == self@.to_json(),
    {
        let result = match &self.result {
            Some(task) => Some(task.to_json()),
            None => None,
        };
        let error = match &self.error {
            Some(e) => Some(e.to_json()),
            None => None,
        };
        let mut members = no_members();
        put(&mut members, "jsonrpc", string(self.jsonrpc.as_str()));
        put(&mut members, "id", opt_string_or_null(&self.id));
        put_optional(&mut members, "result", result);
        put_optional(&mut members, "error", error);
        object(members)
    }

    /// Reads a response from a document.
    pub fn from_json(j: &Json) -> (r: Option<JsonRpcResponse<Task>>)
        ensures
            r.deep_view() == JsonRpcResponseView::<TaskView>::from_json(j@),
    {
        let members = match members_of(j) {
            Some(members) => members,
            None => return None,
        };
        let jsonrpc = match get_string(members, "jsonrpc") {
            Some(v) => v,
            None => return None,
        };
        let id = match get_opt_string(members, "id") {
            Some(v) => v,
            None => return None,
        };
        let result = match find_member(members, "result") {
            None => None,
            Some(Json::Null) => None,
            Some(found) => match Task::from_json(found) {
                Some(task) => Some(task),
                None => return None,
            },
        };
        let error = match find_member(members, "error") {
            None => None,
            Some(Json::Null) => None,
            Some(found) => match JsonRpcError::from_json(found) {
                Some(e) => Some(e),
                None => return None,
            },
        };
        Some(JsonRpcResponse { jsonrpc, id, result, error })
    }
}

impl TaskIdParamsView {
    /// The parameters on the wire: an object with the id and, if there is
    /// any, the metadata.
    pub open spec fn to_json(self) -> JsonView {
        JsonView::Object(
            with_optional(
                Seq::<(Seq<char>, JsonView)>::empty().push(("id"@, JsonView::String(self.id))),
                "metadata"@,
                object_json(self.metadata),
            ),
        )
    }

    /// The parameters that a document stands for.
    pub open spec fn from_json(j: JsonView) -> Option<TaskIdParamsView> {
        match j {
            JsonView::Object(members) => match (
                required_string(members, "id"@),
                optional_object(members, "metadata"@),
            ) {
                (Some(id), Some(metadata)) => Some(TaskIdParamsView { id, metadata }),
                _ => None,
            },
            _ => None,
        }
    }
}

impl TaskIdParams {
    /// Writes the parameters as a document.
    pub fn to_json(&self) -> (j: Json)
        ensures
            j@ == self@.to_json(),
    {
        let mut members = no_members();
        put(&mut members, "id", string(self.id.as_str()));
        put_optional(&mut members, "metadata", opt_object(&self.metadata));
        object(members)
    }

    /// Reads the parameters from a document.
    pub fn from_json(j: &Json) -> (r: Option<TaskIdParams>)
        ensures
            r.deep_view() == TaskIdParamsView::from_json(j@),
    {
        let members = match members_of(j) {
            Some(members) => members,
            None => return None,
        };
        let id = match get_string(members, "id") {
            Some(v) => v,
            None => return None,
        };
        let metadata = match get_opt_object(members, "metadata") {
            Some(m) => m,
            None => return None,
        };
        Some(TaskIdParams { id, metadata })
    }
}

impl TaskQueryParamsView {
    /// The parameters on the wire: an object with the id and, if there is
    /// any, the length of the history and the metadata.
    pub open spec fn to_json(self) -> JsonView {
        JsonView::Object(
            with_optional(
                with_optional(
                    Seq::<(Seq<char>, JsonView)>::empty().push(
                        ("id"@, JsonView::String(self.id)),
                    ),
                    "historyLength"@,
                    i32_json(self.history_length),
                ),
                "metadata"@,
                object_json(self.metadata),
            ),
        )
    }

    /// The parameters that a document stands for.
    pub open spec fn from_json(j: JsonView) -> Option<TaskQueryParamsView> {
        match j {
            JsonView::Object(members) => match (
                required_string(members, "id"@),
                optional_i32(members, "historyLength"@),
                optional_object(members, "metadata"@),
            ) {
                (Some(id), Some(history_length), Some(metadata)) => Some(
                    TaskQueryParamsView { id, history_length, metadata },
                ),
                _ => None,
            },
            _ => None,
        }
    }
}

impl TaskQueryParams {
    /// Writes the parameters as a document.
    pub fn to_json(&self) -> (j: Json)
        ensures
            j@ == self@.to_json(),
    {
        let mut members = no_members();
        put(&mut members, "id", string(self.id.as_str()));
        put_optional(&mut members, "historyLength", opt_i32(self.history_length));
        put_optional(&mut members, "metadata", opt_object(&self.metadata));
        object(members)
    }

    /// Reads the parameters from a document.
    pub fn from_json(j: &Json) -> (r: Option<TaskQueryParams>)
        ensures
            r.deep_view() == TaskQueryParamsView::from_json(j@),
    {
        let members = match members_of(j) {
            Some(members) => members,
            None => return None,
        };
        let id = match get_string(members, "id") {
            Some(v) => v,
            None => return None,
        };
        let history_length = match get_opt_i32(members, "historyLength") {
            Some(v) => v,
            None => return None,
        };
        let metadata = match get_opt_object(members, "metadata") {
            Some(m) => m,
            None => return None,
        };
        Some(TaskQueryParams { id, history_length, metadata })
    }
}

impl TaskSendParamsView {
    /// The parameters on the wire: an object with the id, the session id if
    /// there is one, the message and, if there is any, the length of the
    /// history and the metadata.
    pub open spec fn to_json(self) -> JsonView {
        JsonView::Object(
            with_optional(
                with_optional(
                    with_optional(
                        Seq::<(Seq<char>, JsonView)>::empty().push(
                            ("id"@, JsonView::String(self.id)),
                        ),
                        "sessionId"@,
                        string_json(self.session_id),
                    ).push(("message"@, self.message.to_json())),
                    "historyLength"@,
                    i32_json(self.history_length),
                ),
                "metadata"@,
                object_json(self.metadata),
            ),
        )
    }

    /// The parameters that a document stands for.
    pub open spec fn from_json(j: JsonView) -> Option<TaskSendParamsView> {
        match j {
            JsonView::Object(members) => match (
                required_string(members, "id"@),
                optional_string(members, "sessionId"@),
                required_with(members, "message"@, |v: JsonView| MessageView::from_json(v)),
                optional_i32(members, "historyLength"@),
                optional_object(members, "metadata"@),
            ) {
                (
                    Some(id),
                    Some(session_id),
                    Some(message),
                    Some(history_length),
                    Some(metadata),
                ) => Some(
                    TaskSendParamsView { id, session_id, message, history_length, metadata },
                ),
                _ => None,
            },
            _ => None,
        }
    }
}

impl TaskSendParams {
    /// Writes the parameters as a document.
    pub fn to_json(&self) -> (j: Json)
        ensures
            j@ == self@.to_json(),
    {
        let mut members = no_members();
        put(&mut members, "id", string(self.id.as_str()));
        put_optional(&mut members, "sessionId", opt_string(&self.session_id));
        put(&mut members, "message", self.message.to_json());
        put_optional(&mut members, "historyLength", opt_i32(self.history_length));
        put_optional(&mut members, "metadata", opt_object(&self.metadata));
        object(members)
    }

    /// Reads the parameters from a document.
    pub fn from_json(j: &Json) -> (r: Option<TaskSendParams>)
        ensures
            r.deep_view() == TaskSendParamsView::from_json(j@),
    {
        let members = match members_of(j) {
            Some(members) => members,
            None => return None,
        };
        let id = match get_string(members, "id") {
            Some(v) => v,
            None => return None,
        };
        let session_id = match get_opt_string(members, "sessionId") {
            Some(v) => v,
            None => return None,
        };
        let message = match find_member(members, "message") {
            Some(found) => match Message::from_json(found) {
                Some(m) => m,
                None => return None,
            },
            None => return None,
        };
        let history_length = match get_opt_i32(members, "historyLength") {
            Some(v) => v,
            None => return None,
        };
        let metadata = match get_opt_object(members, "metadata") {
            Some(m) => m,
            None => return None,
        };
        Some(TaskSendParams { id, session_id, message, history_length, metadata })
    }
}

/// A request on the wire, given its parameters on the wire: an object with
/// the version, the id or `null`, the method and the parameters.
pub open spec fn request_json<P>(request: RequestView<P>, params: JsonView) -> JsonView {
    JsonView::Object(
        Seq::<(Seq<char>, JsonView)>::empty().push(
            ("jsonrpc"@, JsonView::String(request.jsonrpc)),
        ).push(("id"@, or_null(string_json(request.id)))).push(
            ("method"@, JsonView::String(request.method)),
        ).push(("params"@, params)),
    )
}

/// What a request on the wire holds besides the meaning of its parameters:
/// the version and the method have to be strings, the id a string if it is
/// there, and the parameters have to be there.
pub open spec fn envelope_from_json(j: JsonView) -> Option<RequestView<JsonView>> {
    match j {
        JsonView::Object(members) => match (
            required_string(members, "jsonrpc"@),
            optional_string(members, "id"@),
            required_string(members, "method"@),
            lookup(members, "params"@),
        ) {
            (Some(jsonrpc), Some(id), Some(method), Some(params)) => Some(
                RequestView { jsonrpc, id, method, params },
            ),
            _ => None,
        },
        _ => None,
    }
}

/// The request that a document stands for, given how its parameters are
/// read.
pub open spec fn request_from_json<P>(j: JsonView, decode: spec_fn(JsonView) -> Option<P>) -> Option<
    RequestView<P>,
> {
    match envelope_from_json(j) {
        Some(envelope) => match decode(envelope.params) {
            Some(params) => Some(
                RequestView {
                    jsonrpc: envelope.jsonrpc,
                    id: envelope.id,
                    method: envelope.method,
                    params,
                },
            ),
            None => None,
        },
        None => None,
    }
}

/// The request to send a message that a document stands for.
pub open spec fn send_request_from_json(j: JsonView) -> Option<RequestView<TaskSendParamsView>> {
    request_from_json(j, |v: JsonView| TaskSendParamsView::from_json(v))
}

/// The request for a task that a document stands for.
pub open spec fn get_request_from_json(j: JsonView) -> Option<RequestView<TaskQueryParamsView>> {
    request_from_json(j, |v: JsonView| TaskQueryParamsView::from_json(v))
}

/// The request to cancel a task that a document stands for.
pub open spec fn cancel_request_from_json(j: JsonView) -> Option<RequestView<TaskIdParamsView>> {
    request_from_json(j, |v: JsonView| TaskIdParamsView::from_json(v))
}

/// What every request carries besides the meaning of its parameters.
struct Envelope<'a> {
    jsonrpc: String,
    id: Option<String>,
    method: String,
    params: &'a Json,
}

fn envelope_of<'a>(j: &'a Json) -> (r: Option<Envelope<'a>>)
    ensures
        match r {
            Some(e) => envelope_from_json(j@) == Some(
                RequestView {
                    jsonrpc: e.jsonrpc@,
                    id: e.id.deep_view(),
                    method: e.method@,
                    params: e.params@,
                },
            ),
            None => envelope_from_json(j@) is None,
        },
{
    let members = match members_of(j) {
        Some(members) => members,
        None => return None,
    };
    let jsonrpc = match get_string(members, "jsonrpc") {
        Some(v) => v,
        None => return None,
    };
    let id = match get_opt_string(members, "id") {
        Some(v) => v,
        None => return None,
    };
    let method = match get_string(members, "method") {
        Some(v) => v,
        None => return None,
    };
    let params = match find_member(members, "params") {
        Some(found) => found,
        None => return None,
    };
    Some(Envelope { jsonrpc, id, method, params })
}

fn envelope_to_json(jsonrpc: &String, id: &Option<String>, method: &String, params: Json) -> (j:
    Json)
    ensures
        j@ == JsonView::Object(
            Seq::<(Seq<char>, JsonView)>::empty().push(("jsonrpc"@, JsonView::String(jsonrpc@))).push(
                ("id"@, or_null(string_json(id.deep_view()))),
            ).push(("method"@, JsonView::String(method@))).push(("params"@, params@)),
        ),
{
    let mut members = no_members();
    put(&mut members, "jsonrpc", string(jsonrpc.as_str()));
    put(&mut members, "id", opt_string_or_null(id));
    put(&mut members, "method", string(method.as_str()));
    put(&mut members, "params", params);
    object(members)
}

impl SendTaskRequest {
    /// Writes the request as a document.
    pub fn to_json(&self) -> (j: Json)
        ensures
            j@ == request_json(self@, self.params@.to_json()),
    {
        envelope_to_json(&self.jsonrpc, &self.id, &self.method, self.params.to_json())
    }

    /// Reads the request from a document.
    pub fn from_json(j: &Json) -> (r: Option<SendTaskRequest>)
        ensures
            r.deep_view() == send_request_from_json(j@),
    {
        let Envelope { jsonrpc, id, method, params } = match envelope_of(j) {
            Some(e) => e,
            None => return None,
        };
        match TaskSendParams::from_json(params) {
            Some(params) => Some(SendTaskRequest { jsonrpc, id, method, params }),
            None => None,
        }
    }
}

impl GetTaskRequest {
    /// Writes the request as a document.
    pub fn to_json(&self) -> (j: Json)
        ensures
            j@ == request_json(self@, self.params@.to_json()),
    {
        envelope_to_json(&self.jsonrpc, &self.id, &self.method, self.params.to_json())
    }

    /// Reads the request from a document.
    pub fn from_json(j: &Json) -> (r: Option<GetTaskRequest>)
        ensures
            r.deep_view() == get_request_from_json(j@),
    {
        let Envelope { jsonrpc, id, method, params } = match envelope_of(j) {
            Some(e) => e,
            None => return None,
        };
        match TaskQueryParams::from_json(params) {
            Some(params) => Some(GetTaskRequest { jsonrpc, id, method, params }),
            None => None,
        }
    }
}

impl CancelTaskRequest {
    /// Writes the request as a document.
    pub fn to_json(&self) -> (j: Json)
        ensures
            j@ == request_json(self@, self.params@.to_json()),
    {
        envelope_to_json(&self.jsonrpc, &self.id, &self.method, self.params.to_json())
    }

    /// Reads the request from a document.
    pub fn from_json(j: &Json) -> (r: Option<CancelTaskRequest>)
        ensures
            r.deep_view() == cancel_request_from_json(j@),
    {
        let Envelope { jsonrpc, id, method, params } = match envelope_of(j) {
            Some(e) => e,
            None => return None,
        };
        match TaskIdParams::from_json(params) {
            Some(params) => Some(CancelTaskRequest { jsonrpc, id, method, params }),
            None => None,
        }
    }
}

/// The keys of the parameters of a request differ from one another.
proof fn lemma_params_keys_differ()
    ensures
        "id"@ != "sessionId"@,
        "id"@ != "message"@,
        "id"@ != "historyLength"@,
        "id"@ != "metadata"@,
        "sessionId"@ != "message"@,
        "sessionId"@ != "historyLength"@,
        "sessionId"@ != "metadata"@,
        "message"@ != "historyLength"@,
        "message"@ != "metadata"@,
        "historyLength"@ != "metadata"@,
{
    reveal_strlit("id");
    reveal_strlit("sessionId");
    reveal_strlit("message");
    reveal_strlit("historyLength");
    reveal_strlit("metadata");
    assert("id"@.len() == 2 && "sessionId"@.len() == 9 && "message"@.len() == 7
        && "historyLength"@.len() == 13 && "metadata"@.len() == 8);
}

/// Parameters that hold only an id, written and read, are the same.
pub proof fn law_id_params_round_trip(params: TaskIdParamsView)
    ensures
        TaskIdParamsView::from_json(params.to_json()) == Some(params),
{
    lemma_params_keys_differ();
    let m0 = Seq::<(Seq<char>, JsonView)>::empty();
    let m1 = m0.push(("id"@, JsonView::String(params.id)));
    let m2 = with_optional(m1, "metadata"@, object_json(params.metadata));
    assert forall|key: Seq<char>|
        lookup(m2, key) == if key == "id"@ {
            Some(JsonView::String(params.id))
        } else if key == "metadata"@ {
            object_json(params.metadata)
        } else {
            None
        } by {
        lemma_lookup_push(m0, "id"@, JsonView::String(params.id), key);
        lemma_lookup_with_optional(m1, "metadata"@, object_json(params.metadata), key);
    }
    assert(required_string(m2, "id"@) == Some(params.id));
    assert(optional_object(m2, "metadata"@) == Some(params.metadata));
}

/// Parameters of a query, written and read, are the same.
pub proof fn law_query_params_round_trip(params: TaskQueryParamsView)
    ensures
        TaskQueryParamsView::from_json(params.to_json()) == Some(params),
{
    lemma_params_keys_differ();
    let m0 = Seq::<(Seq<char>, JsonView)>::empty();
    let m1 = m0.push(("id"@, JsonView::String(params.id)));
    let m2 = with_optional(m1, "historyLength"@, i32_json(params.history_length));
    let m3 = with_optional(m2, "metadata"@, object_json(params.metadata));
    assert forall|key: Seq<char>|
        lookup(m3, key) == if key == "id"@ {
            Some(JsonView::String(params.id))
        } else if key == "historyLength"@ {
            i32_json(params.history_length)
        } else if key == "metadata"@ {
            object_json(params.metadata)
        } else {
            None
        } by {
        lemma_lookup_push(m0, "id"@, JsonView::String(params.id), key);
        lemma_lookup_with_optional(m1, "historyLength"@, i32_json(params.history_length), key);
        lemma_lookup_with_optional(m2, "metadata"@, object_json(params.metadata), key);
    }
    assert(required_string(m3, "id"@) == Some(params.id));
    assert(optional_i32(m3, "historyLength"@) == Some(params.history_length));
    assert(optional_object(m3, "metadata"@) == Some(params.metadata));
}

/// Parameters of a message, written and read, are the same.
pub proof fn law_send_params_round_trip(params: TaskSendParamsView)
    ensures
        TaskSendParamsView::from_json(params.to_json()) == Some(params),
{
    lemma_params_keys_differ();
    let m0 = Seq::<(Seq<char>, JsonView)>::empty();
    let m1 = m0.push(("id"@, JsonView::String(params.id)));
    let m2 = with_optional(m1, "sessionId"@, string_json(params.session_id));
    let m3 = m2.push(("message"@, params.message.to_json()));
    let m4 = with_optional(m3, "historyLength"@, i32_json(params.history_length));
    let m5 = with_optional(m4, "metadata"@, object_json(params.metadata));
    assert forall|key: Seq<char>|
        lookup(m5, key) == if key == "id"@ {
            Some(JsonView::String(params.id))
        } else if key == "sessionId"@ {
            string_json(params.session_id)
        } else if key == "message"@ {
            Some(params.message.to_json())
        } else if key == "historyLength"@ {
            i32_json(params.history_length)
        } else if key == "metadata"@ {
            object_json(params.metadata)
        } else {
            None
        } by {
        lemma_lookup_push(m0, "id"@, JsonView::String(params.id), key);
        lemma_lookup_with_optional(m1, "sessionId"@, string_json(params.session_id), key);
        lemma_lookup_push(m2, "message"@, params.message.to_json(), key);
        lemma_lookup_with_optional(m3, "historyLength"@, i32_json(params.history_length), key);
        lemma_lookup_with_optional(m4, "metadata"@, object_json(params.metadata), key);
    }
    law_message_round_trip(params.message);
    assert(required_string(m5, "id"@) == Some(params.id));
    assert(optional_string(m5, "sessionId"@) == Some(params.session_id));
    assert(optional_i32(m5, "historyLength"@) == Some(params.history_length));
    assert(optional_object(m5, "metadata"@) == Some(params.metadata));
}

/// A request that was written is read as the same envelope around the
/// parameters as they were written; its method and its id are found under
/// their keys.
pub proof fn lemma_envelope_round_trip<P>(request: RequestView<P>, params: JsonView)
    ensures
        envelope_from_json(request_json(request, params)) == Some(
            RequestView {
                jsonrpc: request.jsonrpc,
                id: request.id,
                method: request.method,
                params,
            },
        ),
        request_json(request, params) matches JsonView::Object(members) && required_string(
            members,
            "method"@,
        ) == Some(request.method) && optional_string(members, "id"@) == Some(request.id),
{
    reveal_strlit("jsonrpc");
    reveal_strlit("id");
    reveal_strlit("method");
    reveal_strlit("params");
    assert("jsonrpc"@.len() == 7 && "id"@.len() == 2 && "method"@.len() == 6 && "params"@.len()
        == 6);
    assert("method"@[0] != "params"@[0]);
    let id = or_null(string_json(request.id));
    let m0 = Seq::<(Seq<char>, JsonView)>::empty();
    let m1 = m0.push(("jsonrpc"@, JsonView::String(request.jsonrpc)));
    let m2 = m1.push(("id"@, id));
    let m3 = m2.push(("method"@, JsonView::String(request.method)));
    let m4 = m3.push(("params"@, params));
    assert forall|key: Seq<char>|
        lookup(m4, key) == if key == "jsonrpc"@ {
            Some(JsonView::String(request.jsonrpc))
        } else if key == "id"@ {
            Some(id)
        } else if key == "method"@ {
            Some(JsonView::String(request.method))
        } else if key == "params"@ {
            Some(params)
        } else {
            None
        } by {
        lemma_lookup_push(m0, "jsonrpc"@, JsonView::String(request.jsonrpc), key);
        lemma_lookup_push(m1, "id"@, id, key);
        lemma_lookup_push(m2, "method"@, JsonView::String(request.method), key);
        lemma_lookup_push(m3, "params"@, params, key);
    }
    assert(required_string(m4, "jsonrpc"@) == Some(request.jsonrpc));
    assert(optional_string(m4, "id"@) == Some(request.id));
    assert(required_string(m4, "method"@) == Some(request.method));
}

/// What is read from a request as it was written is the request: the reader
/// of requests on one side understands the writer on the other.
pub proof fn law_requests_round_trip(
    send: RequestView<TaskSendParamsView>,
    get: RequestView<TaskQueryParamsView>,
    cancel: RequestView<TaskIdParamsView>,
)
    ensures
        send_request_from_json(request_json(send, send.params.to_json())) == Some(send),
        get_request_from_json(request_json(get, get.params.to_json())) == Some(get),
        cancel_request_from_json(request_json(cancel, cancel.params.to_json())) == Some(cancel),
{
    lemma_envelope_round_trip(send, send.params.to_json());
    law_send_params_round_trip(send.params);
    lemma_envelope_round_trip(get, get.params.to_json());
    law_query_params_round_trip(get.params);
    lemma_envelope_round_trip(cancel, cancel.params.to_json());
    law_id_params_round_trip(cancel.params);
}

/// An error that was written is the error that is read, unless its data
/// is `null`, which reads as no data.
pub proof fn law_error_round_trip(error: JsonRpcErrorView)
    requires
        error.data != Some(JsonView::Null),
    ensures
        JsonRpcErrorView::from_json(error.to_json()) == Some(error),
{
    reveal_strlit("code");
    reveal_strlit("message");
    reveal_strlit("data");
    assert("code"@.len() == 4 && "message"@.len() == 7 && "data"@.len() == 4);
    assert("code"@[0] != "data"@[0]);
    let code = JsonView::Integer(error.code as int);
    let m0 = Seq::<(Seq<char>, JsonView)>::empty();
    let m1 = m0.push(("code"@, code));
    let m2 = m1.push(("message"@, JsonView::String(error.message)));
    let m3 = m2.push(("data"@, or_null(error.data)));
    assert forall|key: Seq<char>|
        lookup(m3, key) == if key == "code"@ {
            Some(code)
        } else if key == "message"@ {
            Some(JsonView::String(error.message))
        } else if key == "data"@ {
            Some(or_null(error.data))
        } else {
            None
        } by {
        lemma_lookup_push(m0, "code"@, code, key);
        lemma_lookup_push(m1, "message"@, JsonView::String(error.message), key);
        lemma_lookup_push(m2, "data"@, or_null(error.data), key);
    }
    assert(required_i32(m3, "code"@) == Some(error.code));
    assert(required_string(m3, "message"@) == Some(error.message));
    assert(optional_json(m3, "data"@) == error.data);
}

/// A response that was written is the response that is read, if the instant
/// of its task is read back from its text and the data of its error is not
/// `null`.
pub proof fn law_response_round_trip(response: JsonRpcResponseView<TaskView>)
    requires
        response.result matches Some(task) ==> task.status.timestamp.reads_back(),
        response.error matches Some(error) ==> error.data != Some(JsonView::Null),
    ensures
        response.to_json() matches Some(j) && JsonRpcResponseView::<TaskView>::from_json(j)
            == Some(response),
{
    reveal_strlit("jsonrpc");
    reveal_strlit("id");
    reveal_strlit("result");
    reveal_strlit("error");
    assert("jsonrpc"@.len() == 7 && "id"@.len() == 2 && "result"@.len() == 6 && "error"@.len()
        == 5);
    if response.result is Some {
        law_task_round_trip(response.result->Some_0);
    }
    if response.error is Some {
        law_error_round_trip(response.error->Some_0);
    }
    let result = result_json(response.result)->Some_0;
    let id = or_null(string_json(response.id));
    let m0 = Seq::<(Seq<char>, JsonView)>::empty();
    let m1 = m0.push(("jsonrpc"@, JsonView::String(response.jsonrpc)));
    let m2 = m1.push(("id"@, id));
    let m3 = with_optional(m2, "result"@, result);
    let m4 = with_optional(m3, "error"@, error_json(response.error));
    assert forall|key: Seq<char>|
        lookup(m4, key) == if key == "jsonrpc"@ {
            Some(JsonView::String(response.jsonrpc))
        } else if key == "id"@ {
            Some(id)
        } else if key == "result"@ {
            result
        } else if key == "error"@ {
            error_json(response.error)
        } else {
            None
        } by {
        lemma_lookup_push(m0, "jsonrpc"@, JsonView::String(response.jsonrpc), key);
        lemma_lookup_push(m1, "id"@, id, key);
        lemma_lookup_with_optional(m2, "result"@, result, key);
        lemma_lookup_with_optional(m3, "error"@, error_json(response.error), key);
    }
    assert(required_string(m4, "jsonrpc"@) == Some(response.jsonrpc));
    assert(optional_string(m4, "id"@) == Some(response.id));
    assert(optional_with(m4, "result"@, |v: JsonView| TaskView::from_json(v)) == Some(
        response.result,
    ));
    assert(optional_with(m4, "error"@, |v: JsonView| JsonRpcErrorView::from_json(v)) == Some(
        response.error,
    ));
}

} // verus!
