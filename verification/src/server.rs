//! The handling of requests: what each request amounts to, the handlers
//! of the three methods, and the answer that goes back.

use crate::wire::envelope::{
    cancel_request_from_json, error_json, get_request_from_json, law_requests_round_trip,
    lemma_envelope_round_trip, or_null, request_json, result_json, send_request_from_json,
};
use crate::error::{result_view, A2AError, A2AErrorView, A2AResult};
use crate::json::{lemma_lookup_push, lookup, str_eq, Json, JsonView};
use crate::store::{announced, apply, fetch, outcome, Mutation, Registry, TaskStore};
use crate::time::Timestamp;
use crate::types::{
    Artifact, ArtifactView, CancelTaskRequest, GetTaskRequest, JsonRpcResponse,
    JsonRpcResponseView, Message, MessageView, Part, PartView, RequestView, SendTaskRequest, Task,
    TaskIdParamsView, TaskQueryParamsView, TaskSendParamsView, TaskState, TaskStatus,
    TaskStatusView, TaskView, TextPart, TextPartView,
};
use crate::wire::fields::{
    get_opt_string, get_string, lemma_lookup_with_optional, members_of, optional_string,
    required_string, string_json, with_optional,
};
use vstd::prelude::*;

verus! {

/// What the handlers share: the store of tasks.
pub struct AppState {
    pub task_store: TaskStore,
}

/// Whether a list of parts holds a text part.
pub open spec fn has_text(parts: Seq<PartView>) -> bool
    decreases parts.len(),
{
    if parts.len() == 0 {
        false
    } else {
        parts.last() is Text || has_text(parts.drop_last())
    }
}

/// The texts of the text parts of a list, in their order, with one space
/// between each two of them.
pub open spec fn joined_text(parts: Seq<PartView>) -> Seq<char>
    decreases parts.len(),
{
    if parts.len() == 0 {
        Seq::empty()
    } else {
        let before = joined_text(parts.drop_last());
        match parts.last() {
            PartView::Text(p) => if has_text(parts.drop_last()) {
                before + " "@ + p.text
            } else {
                p.text
            },
            _ => before,
        }
    }
}

/// A message of the agent that holds one text part with the given text.
pub open spec fn agent_text(text: Seq<char>) -> MessageView {
    MessageView {
        role: "agent"@,
        parts: seq![
            PartView::Text(TextPartView { part_type: "text"@, text, metadata: None }),
        ],
        metadata: None,
    }
}

/// The reply to a message: the agent says what text it received.
pub open spec fn reply_to(message: MessageView) -> MessageView {
    agent_text("Rust A2A server received: "@ + joined_text(message.parts))
}

/// Answers a message with the text that was received in it.
pub fn process_message(message: &Message) -> (r: A2AResult<Message>)
    ensures
        result_view(r) == Ok::<MessageView, A2AErrorView>(reply_to(message@)),
{
    let mut text = String::from_str("Rust A2A server received: ");
    let mut seen = false;
    let mut i: usize = 0;
    let ghost parts = message.parts.deep_view();
    assert(parts.take(0) =~= Seq::empty());
    while i < message.parts.len()
        invariant
            i <= message.parts.len(),
            parts == message.parts.deep_view(),
            seen == has_text(parts.take(i as int)),
            text@ == "Rust A2A server received: "@ + joined_text(parts.take(i as int)),
        decreases message.parts.len() - i,
    {
        proof {
            let upto = parts.take(i + 1);
            assert(upto.drop_last() =~= parts.take(i as int));
            assert(upto.last() == parts[i as int]);
        }
        match &message.parts[i] {
            Part::Text(p) => {
                if seen {
                    text.append(" ");
                }
                text.append(p.text.as_str());
                seen = true;
                proof {
                    let lead = "Rust A2A server received: "@;
                    let sofar = joined_text(parts.take(i as int));
                    if has_text(parts.take(i as int)) {
                        assert(text@ =~= lead + (sofar + " "@ + p.text@));
                    } else {
                        lemma_no_text_no_joined(parts.take(i as int));
                        assert(text@ =~= lead + p.text@);
                    }
                }
            },
            _ => {},
        }
        i += 1;
    }
    assert(parts.take(i as int) =~= parts);
    let mut reply_parts: Vec<Part> = Vec::new();
    reply_parts.push(
        Part::Text(TextPart { part_type: String::from_str("text"), text, metadata: None }),
    );
    assert(reply_parts.deep_view() =~= reply_to(message@).parts);
    Ok(Message { role: String::from_str("agent"), parts: reply_parts, metadata: None })
}

/// Without a text part there is no text.
proof fn lemma_no_text_no_joined(parts: Seq<PartView>)
    requires
        !has_text(parts),
    ensures
        joined_text(parts) == Seq::<char>::empty(),
    decreases parts.len(),
{
    if parts.len() > 0 {
        lemma_no_text_no_joined(parts.drop_last());
    }
}

/// The status of a task that was answered at `now`.
pub open spec fn completed_with(reply: MessageView, now: Timestamp) -> TaskStatusView {
    TaskStatusView { state: TaskState::Completed, message: Some(reply), timestamp: now }
}

/// The artifact that every task gets when it is created by a message.
pub open spec fn sample_artifact() -> ArtifactView {
    ArtifactView {
        name: Some("result"@),
        description: Some("Task result"@),
        parts: seq![
            PartView::Text(
                TextPartView {
                    part_type: "text"@,
                    text: "This is a sample artifact from the Rust A2A server."@,
                    metadata: None,
                },
            ),
        ],
        index: 0i32,
        append: None,
        metadata: None,
        last_chunk: Some(true),
    }
}

/// The task that a message creates when no task has its id: answered and
/// completed at once, with the sample artifact.
pub open spec fn first_answer(params: TaskSendParamsView, now: Timestamp) -> TaskView {
    TaskView {
        id: params.id,
        session_id: params.session_id,
        status: completed_with(reply_to(params.message), now),
        artifacts: Some(seq![sample_artifact()]),
        metadata: None,
    }
}

/// Why a message to a task that does not wait for input is refused.
pub open spec fn not_waiting(id: Seq<char>) -> Seq<char> {
    "Task "@ + id + " is not in input-required state"@
}

/// Why a request whose parameters do not read is refused.
pub open spec fn malformed(method: Seq<char>) -> Seq<char> {
    "Malformed request for "@ + method
}

/// What a request amounts to: a change to the store, a lookup in it, or a
/// refusal that leaves the store alone.
pub enum Action {
    Change(Mutation),
    Read(Seq<char>),
    Refuse(A2AErrorView),
}

impl Action {
    /// What the request is answered with.
    pub open spec fn outcome(self, reg: Registry) -> Result<TaskView, A2AErrorView> {
        match self {
            Action::Change(m) => outcome(reg, m),
            Action::Read(id) => fetch(reg, id),
            Action::Refuse(e) => Err(e),
        }
    }

    /// The registry after the request.
    pub open spec fn apply(self, reg: Registry) -> Registry {
        match self {
            Action::Change(m) => apply(reg, m),
            _ => reg,
        }
    }

    /// What the store announces during the request.
    pub open spec fn announced(self, reg: Registry) -> Seq<TaskView> {
        match self {
            Action::Change(m) => announced(reg, m),
            _ => Seq::empty(),
        }
    }
}

/// What a message to a task amounts to. If no task has the id, the task is
/// created as answered. If the task waits for input, it is answered and
/// completed. In any other state the message is refused.
pub open spec fn send_action(reg: Registry, params: TaskSendParamsView, now: Timestamp) -> Action {
    if !reg.contains_key(params.id) {
        Action::Change(Mutation::Create(first_answer(params, now)))
    } else if reg[params.id].status.state == TaskState::InputRequired {
        Action::Change(
            Mutation::UpdateStatus(params.id, completed_with(reply_to(params.message), now)),
        )
    } else {
        Action::Refuse(A2AErrorView::InvalidRequest(not_waiting(params.id)))
    }
}

/// The method that a request names: the string under `method` of an
/// object.
pub open spec fn method_of(payload: JsonView) -> Option<Seq<char>> {
    match payload {
        JsonView::Object(members) => required_string(members, "method"@),
        _ => None,
    }
}

/// The id that the answer to a request repeats: the string under `id` of
/// an object, if there is one.
pub open spec fn id_of(payload: JsonView) -> Option<Seq<char>> {
    match payload {
        JsonView::Object(members) => match optional_string(members, "id"@) {
            Some(Some(id)) => Some(id),
            _ => None,
        },
        _ => None,
    }
}

/// What a request amounts to at `now`. A request without a method is
/// refused as invalid; so is one whose method is known while the rest of it
/// does not read; one with any other method is refused for that method.
pub open spec fn request_action(reg: Registry, payload: JsonView, now: Timestamp) -> Action {
    match method_of(payload) {
        None => Action::Refuse(A2AErrorView::InvalidRequest("Missing method"@)),
        Some(method) => if method == "tasks/send"@ {
            match send_request_from_json(payload) {
                Some(request) => send_action(reg, request.params, now),
                None => Action::Refuse(A2AErrorView::InvalidRequest(malformed(method))),
            }
        } else if method == "tasks/get"@ {
            match get_request_from_json(payload) {
                Some(request) => Action::Read(request.params.id),
                None => Action::Refuse(A2AErrorView::InvalidRequest(malformed(method))),
            }
        } else if method == "tasks/cancel"@ {
            match cancel_request_from_json(payload) {
                Some(request) => Action::Change(Mutation::Cancel(request.params.id, now)),
                None => Action::Refuse(A2AErrorView::InvalidRequest(malformed(method))),
            }
        } else {
            Action::Refuse(A2AErrorView::MethodNotFound(method))
        },
    }
}

/// Model of [`RpcReply`].
pub struct RpcReplyView {
    pub status: u16,
    pub body: JsonView,
}

/// What is sent back for a request: an HTTP status and a response on the
/// wire.
#[derive(Debug, PartialEq, Eq)]
pub struct RpcReply {
    pub status: u16,
    pub body: Json,
}

impl DeepView for RpcReply {
    type V = RpcReplyView;

    open spec fn deep_view(&self) -> RpcReplyView {
        RpcReplyView { status: self.status, body: self.body@ }
    }
}

impl View for RpcReply {
    type V = RpcReplyView;

    open spec fn view(&self) -> RpcReplyView {
        self.deep_view()
    }
}

/// The response that carries a task to the request with the id.
pub open spec fn success_response(id: Option<Seq<char>>, task: TaskView) -> JsonRpcResponseView<
    TaskView,
> {
    JsonRpcResponseView { jsonrpc: "2.0"@, id, result: Some(task), error: None }
}

/// The error that stands for a task which cannot be written.
pub open spec fn unwritable() -> A2AErrorView {
    A2AErrorView::SerializationError("the instant of the task has no text"@)
}

/// What is sent back for an error: the status that goes with it, and the
/// response that carries it.
pub open spec fn failure_reply(id: Option<Seq<char>>, e: A2AErrorView) -> RpcReplyView {
    RpcReplyView { status: e.http_status(), body: e.response::<TaskView>(id).to_json()->Some_0 }
}

/// What is sent back for the result of a request: the task with status
/// 200, or the error. A task that cannot be written is an error in turn.
pub open spec fn reply_for(
    id: Option<Seq<char>>,
    result: Result<TaskView, A2AErrorView>,
) -> RpcReplyView {
    match result {
        Ok(task) => match success_response(id, task).to_json() {
            Some(body) => RpcReplyView { status: 200, body },
            None => failure_reply(id, unwritable()),
        },
        Err(e) => failure_reply(id, e),
    }
}

/// That a request was handled at `now`: the reply, the registry and the
/// announcements afterwards are those that the request amounts to.
pub open spec fn handled(
    before: Registry,
    published_before: Seq<TaskView>,
    payload: JsonView,
    now: Timestamp,
    reply: RpcReplyView,
    after: Registry,
    published_after: Seq<TaskView>,
) -> bool {
    let action = request_action(before, payload, now);
    &&& reply == reply_for(id_of(payload), action.outcome(before))
    &&& after == action.apply(before)
    &&& published_after == published_before + action.announced(before)
}

/// The artifact that every task gets when it is created by a message.
fn make_sample_artifact() -> (a: Artifact)
    ensures
        a@ == sample_artifact(),
{
    let mut parts: Vec<Part> = Vec::new();
    parts.push(
        Part::Text(
            TextPart {
                part_type: String::from_str("text"),
                text: String::from_str("This is a sample artifact from the Rust A2A server."),
                metadata: None,
            },
        ),
    );
    assert(parts.deep_view() =~= sample_artifact().parts);
    Artifact {
        name: Some(String::from_str("result")),
        description: Some(String::from_str("Task result")),
        parts,
        index: 0,
        append: None,
        metadata: None,
        last_chunk: Some(true),
    }
}

/// Handles a message to a task, as of `now`: see [`send_action`].
pub fn handle_send_task(state: &mut AppState, request: SendTaskRequest, now: Timestamp) -> (r:
    A2AResult<Task>)
    ensures
        ({
            let before = old(state).task_store@;
            let action = send_action(before, request@.params, now);
            &&& result_view(r) == action.outcome(before)
            &&& final(state).task_store@ == action.apply(before)
            &&& final(state).task_store.channel() == old(state).task_store.channel()
            &&& final(state).task_store.published() == old(state).task_store.published()
                + action.announced(before)
        }),
{
    let SendTaskRequest { jsonrpc: _, id: _, method: _, params } = request;
    let task_id = params.id;
    let session_id = params.session_id;
    let message = params.message;
    match state.task_store.get_task(task_id.as_str()) {
        Ok(task) => {
            if task.status.state == TaskState::InputRequired {
                let response_message = match process_message(&message) {
                    Ok(m) => m,
                    Err(e) => return Err(e),
                };
                let new_status = TaskStatus {
                    state: TaskState::Completed,
                    message: Some(response_message),
                    timestamp: now,
                };
                state.task_store.update_task_status(task_id.as_str(), new_status)
            } else {
                let mut detail = String::from_str("Task ");
                detail.append(task_id.as_str());
                detail.append(" is not in input-required state");
                Err(A2AError::InvalidRequest(detail))
            }
        },
        Err(_) => {
            let response_message = match process_message(&message) {
                Ok(m) => m,
                Err(e) => return Err(e),
            };
            let mut artifacts: Vec<Artifact> = Vec::new();
            artifacts.push(make_sample_artifact());
            assert(artifacts.deep_view() =~= seq![sample_artifact()]);
            let task = Task {
                id: task_id,
                session_id,
                status: TaskStatus {
                    state: TaskState::Completed,
                    message: Some(response_message),
                    timestamp: now,
                },
                artifacts: Some(artifacts),
                metadata: None,
            };
            state.task_store.create_task(task)
        },
    }
}

/// Handles a request for a task: the task under the id, or that there is
/// none.
pub fn handle_get_task(state: &AppState, request: GetTaskRequest) -> (r: A2AResult<Task>)
    ensures
        result_view(r) == fetch(state.task_store@, request@.params.id),
{
    state.task_store.get_task(request.params.id.as_str())
}

/// Handles a request to cancel a task, as of `now`.
pub fn handle_cancel_task(state: &mut AppState, request: CancelTaskRequest, now: Timestamp) -> (r:
    A2AResult<Task>)
    ensures
        ({
            let before = old(state).task_store@;
            let m = Mutation::Cancel(request@.params.id, now);
            &&& result_view(r) == outcome(before, m)
            &&& final(state).task_store@ == apply(before, m)
            &&& final(state).task_store.channel() == old(state).task_store.channel()
            &&& final(state).task_store.published() == old(state).task_store.published()
                + announced(before, m)
        }),
{
    state.task_store.cancel_task_at(request.params.id.as_str(), now)
}

/// The method that a request names.
pub fn request_method(payload: &Json) -> (r: Option<String>)
    ensures
        r.deep_view() == method_of(payload@),
{
    match members_of(payload) {
        Some(members) => get_string(members, "method"),
        None => None,
    }
}

/// The id that the answer to a request repeats.
pub fn request_id(payload: &Json) -> (r: Option<String>)
    ensures
        r.deep_view() == id_of(payload@),
{
    match members_of(payload) {
        Some(members) => match get_opt_string(members, "id") {
            Some(Some(id)) => Some(id),
            _ => None,
        },
        None => None,
    }
}

/// The refusal of a request whose method is known while the rest of it does
/// not read.
pub fn refuse_malformed(method: &str) -> (e: A2AError)
    ensures
        e@ == A2AErrorView::InvalidRequest(malformed(method@)),
{
    let mut detail = String::from_str("Malformed request for ");
    detail.append(method);
    A2AError::InvalidRequest(detail)
}

/// Routes a request by its method to the handler of that method, as of
/// `now`.
pub fn dispatch(state: &mut AppState, payload: &Json, now: Timestamp) -> (r: A2AResult<Task>)
    ensures
        ({
            let before = old(state).task_store@;
            let action = request_action(before, payload@, now);
            &&& result_view(r) == action.outcome(before)
            &&& final(state).task_store@ == action.apply(before)
            &&& final(state).task_store.channel() == old(state).task_store.channel()
            &&& final(state).task_store.published() == old(state).task_store.published()
                + action.announced(before)
        }),
{
    let method = match request_method(payload) {
        Some(method) => method,
        None => return Err(A2AError::InvalidRequest(String::from_str("Missing method"))),
    };
    let name = method.as_str();
    if str_eq(name, "tasks/send") {
        match SendTaskRequest::from_json(payload) {
            Some(request) => handle_send_task(state, request, now),
            None => Err(refuse_malformed(name)),
        }
    } else if str_eq(name, "tasks/get") {
        match GetTaskRequest::from_json(payload) {
            Some(request) => handle_get_task(state, request),
            None => Err(refuse_malformed(name)),
        }
    } else if str_eq(name, "tasks/cancel") {
        match CancelTaskRequest::from_json(payload) {
            Some(request) => handle_cancel_task(state, request, now),
            None => Err(refuse_malformed(name)),
        }
    } else {
        Err(A2AError::MethodNotFound(method))
    }
}

/// What is sent back for an error.
pub fn failure(id: Option<String>, e: A2AError) -> (reply: RpcReply)
    ensures
        reply@ == failure_reply(id.deep_view(), e@),
{
    let (status, response) = e.into_response::<Task>(id);
    RpcReply { status, body: response.to_json() }
}

/// What is sent back for the result of a request.
pub fn reply(id: Option<String>, result: A2AResult<Task>) -> (reply: RpcReply)
    ensures
        reply@ == reply_for(id.deep_view(), result_view(result)),
        result is Ok ==> reply.status == 200,
{
    match result {
        Ok(task) => {
            let response = JsonRpcResponse {
                jsonrpc: String::from_str("2.0"),
                id,
                result: Some(task),
                error: None,
            };
            RpcReply { status: 200, body: response.to_json() }
        },
        Err(e) => failure(id, e),
    }
}

/// Handles one request as of `now`: routes it, applies it to the store, and
/// writes the answer, which repeats the id of the request.
pub fn handle_request_at(state: &mut AppState, payload: &Json, now: Timestamp) -> (reply: RpcReply)
    ensures
        final(state).task_store.channel() == old(state).task_store.channel(),
        reply.status == 200 <==> request_action(old(state).task_store@, payload@, now).outcome(
            old(state).task_store@,
        ) is Ok,
        handled(
            old(state).task_store@,
            old(state).task_store.published(),
            payload@,
            now,
            reply@,
            final(state).task_store@,
            final(state).task_store.published(),
        ),
{
    let id = request_id(payload);
    let result = dispatch(state, payload, now);
    self::reply(id, result)
}

/// Handles one request as of the current instant: see
/// [`handle_request_at`]. The instant is one that can be written, so that a
/// task which is stamped with it is answered as a success.
pub fn handle_request(state: &mut AppState, payload: &Json) -> (reply: RpcReply)
    ensures
        final(state).task_store.channel() == old(state).task_store.channel(),
        exists|now: Timestamp|
            now.wire_text() is Some && now.spec_nanos() < 1_000_000_000 && (reply.status == 200
                <==> request_action(old(state).task_store@, payload@, now).outcome(
                old(state).task_store@,
            ) is Ok) && #[trigger] handled(
                old(state).task_store@,
                old(state).task_store.published(),
                payload@,
                now,
                reply@,
                final(state).task_store@,
                final(state).task_store.published(),
            ),
{
    let now = Timestamp::now();
    handle_request_at(state, payload, now)
}

/// What is found under each key of a response on the wire.
proof fn lemma_response_members(
    id: Option<Seq<char>>,
    result: Option<JsonView>,
    error: Option<JsonView>,
)
    ensures
        ({
            let members = with_optional(
                with_optional(
                    Seq::<(Seq<char>, JsonView)>::empty().push(
                        ("jsonrpc"@, JsonView::String("2.0"@)),
                    ).push(("id"@, or_null(string_json(id)))),
                    "result"@,
                    result,
                ),
                "error"@,
                error,
            );
            &&& lookup(members, "jsonrpc"@) == Some(JsonView::String("2.0"@))
            &&& lookup(members, "id"@) == Some(or_null(string_json(id)))
            &&& lookup(members, "result"@) == result
            &&& lookup(members, "error"@) == error
        }),
{
    reveal_strlit("jsonrpc");
    reveal_strlit("id");
    reveal_strlit("result");
    reveal_strlit("error");
    assert("jsonrpc"@.len() == 7 && "id"@.len() == 2 && "result"@.len() == 6 && "error"@.len()
        == 5);
    let m0 = Seq::<(Seq<char>, JsonView)>::empty();
    let m1 = m0.push(("jsonrpc"@, JsonView::String("2.0"@)));
    let m2 = m1.push(("id"@, or_null(string_json(id))));
    let m3 = with_optional(m2, "result"@, result);
    assert forall|key: Seq<char>|
        key == "jsonrpc"@ || key == "id"@ || key == "result"@ || key == "error"@ implies lookup(
            with_optional(m3, "error"@, error),
            key,
        ) == if key == "jsonrpc"@ {
            Some(JsonView::String("2.0"@))
        } else if key == "id"@ {
            Some(or_null(string_json(id)))
        } else if key == "result"@ {
            result
        } else {
            error
        } by {
        lemma_lookup_push(m0, "jsonrpc"@, JsonView::String("2.0"@), key);
        lemma_lookup_push(m1, "id"@, or_null(string_json(id)), key);
        lemma_lookup_with_optional(m2, "result"@, result, key);
        lemma_lookup_with_optional(m3, "error"@, error, key);
    }
}

/// Every answer is an object that names version 2.0 and repeats the id of
/// the request, or holds `null` where there is none. It holds a result or
/// an error and never both: the task under `result` with status 200 where
/// the request succeeded, and else under `error` the code and message of
/// the failure, with the status that goes with it.
pub proof fn law_reply_shape(id: Option<Seq<char>>, result: Result<TaskView, A2AErrorView>)
    ensures
        ({
            let reply = reply_for(id, result);
            let failure = match result {
                Ok(task) => if task.to_json() is Some {
                    None
                } else {
                    Some(unwritable())
                },
                Err(e) => Some(e),
            };
            &&& reply.body matches JsonView::Object(members)
            &&& lookup(members, "jsonrpc"@) == Some(JsonView::String("2.0"@))
            &&& lookup(members, "id"@) == Some(or_null(string_json(id)))
            &&& lookup(members, "result"@) is Some <==> lookup(members, "error"@) is None
            &&& match failure {
                None => reply.status == 200 && lookup(members, "result"@) == result->Ok_0.to_json(),
                Some(e) => reply.status == e.http_status() && lookup(members, "error"@) == Some(
                    e.rpc_error().to_json(),
                ),
            }
        }),
{
    let failure = match result {
        Ok(task) => if task.to_json() is Some {
            None
        } else {
            Some(unwritable())
        },
        Err(e) => Some(e),
    };
    match failure {
        None => {
            let task = result->Ok_0;
            let written = task.to_json();
            let response = success_response(id, task);
            assert(result_json(response.result) == Some(written));
            assert(error_json(response.error) == None::<JsonView>);
            assert(response.to_json() is Some);
            assert(reply_for(id, result).body == response.to_json()->Some_0);
            lemma_response_members(id, written, None);
        },
        Some(e) => {
            let written = Some(e.rpc_error().to_json());
            lemma_response_members(id, None, written);
        },
    }
}

/// The three methods have names that differ from one another.
proof fn lemma_method_names_differ()
    ensures
        "tasks/send"@ != "tasks/get"@,
        "tasks/send"@ != "tasks/cancel"@,
        "tasks/get"@ != "tasks/cancel"@,
{
    reveal_strlit("tasks/send");
    reveal_strlit("tasks/get");
    reveal_strlit("tasks/cancel");
    assert("tasks/send"@.len() == 10 && "tasks/get"@.len() == 9 && "tasks/cancel"@.len() == 12);
}

/// A request as it is written for one of the three methods is taken for
/// what it means: a message for the message to the task, a query for the
/// lookup of the task, a cancellation for the cancellation of the task.
/// The answer repeats the id of the request.
pub proof fn law_written_request_is_understood(
    reg: Registry,
    now: Timestamp,
    send: RequestView<TaskSendParamsView>,
    get: RequestView<TaskQueryParamsView>,
    cancel: RequestView<TaskIdParamsView>,
)
    requires
        send.method == "tasks/send"@,
        get.method == "tasks/get"@,
        cancel.method == "tasks/cancel"@,
    ensures
        request_action(reg, request_json(send, send.params.to_json()), now) == send_action(
            reg,
            send.params,
            now,
        ),
        request_action(reg, request_json(get, get.params.to_json()), now) == Action::Read(
            get.params.id,
        ),
        request_action(reg, request_json(cancel, cancel.params.to_json()), now) == Action::Change(
            Mutation::Cancel(cancel.params.id, now),
        ),
        id_of(request_json(send, send.params.to_json())) == send.id,
        id_of(request_json(get, get.params.to_json())) == get.id,
        id_of(request_json(cancel, cancel.params.to_json())) == cancel.id,
{
    lemma_method_names_differ();
    law_requests_round_trip(send, get, cancel);
    lemma_envelope_round_trip(send, send.params.to_json());
    lemma_envelope_round_trip(get, get.params.to_json());
    lemma_envelope_round_trip(cancel, cancel.params.to_json());
}

/// A request with a method other than the three is refused for that
/// method, whatever else it holds, and leaves the store alone.
pub proof fn law_unknown_method_is_refused(reg: Registry, payload: JsonView, now: Timestamp)
    requires
        method_of(payload) matches Some(method) && method != "tasks/send"@ && method
            != "tasks/get"@ && method != "tasks/cancel"@,
    ensures
        request_action(reg, payload, now) == Action::Refuse(
            A2AErrorView::MethodNotFound(method_of(payload)->Some_0),
        ),
        request_action(reg, payload, now).apply(reg) == reg,
        request_action(reg, payload, now).announced(reg) == Seq::<TaskView>::empty(),
        reply_for(id_of(payload), request_action(reg, payload, now).outcome(reg)).status == 404,
{
}

} // verus!
