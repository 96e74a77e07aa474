use a2a_rust::error::A2AError;
use a2a_rust::json::{find_member, Json};
use a2a_rust::server::{
    dispatch, failure, handle_cancel_task, handle_get_task, handle_request, handle_request_at,
    handle_send_task, process_message, reply, request_id, request_method, AppState, RpcReply,
};
use a2a_rust::store::TaskStore;
use a2a_rust::time::Timestamp;
use a2a_rust::types::{
    Artifact, CancelTaskRequest, DataPart, GetTaskRequest, Message, Part, SendTaskRequest, Task,
    TaskIdParams, TaskQueryParams, TaskSendParams, TaskState, TaskStatus, TextPart,
};

fn text(s: &str) -> Json {
    Json::String(s.to_string())
}

fn object(members: Vec<(&str, Json)>) -> Json {
    Json::Object(members.into_iter().map(|(k, v)| (k.to_string(), v)).collect())
}

fn at<'a>(j: &'a Json, path: &[&str]) -> &'a Json {
    let mut here = j;
    for key in path {
        here = match here {
            Json::Object(members) => find_member(members, key).expect("member"),
            _ => panic!("not an object at {}", key),
        };
    }
    here
}

fn has(j: &Json, key: &str) -> bool {
    match j {
        Json::Object(members) => find_member(members, key).is_some(),
        _ => false,
    }
}

fn new_state() -> AppState {
    AppState { task_store: TaskStore::new() }
}

fn text_part(s: &str) -> Part {
    Part::Text(TextPart { part_type: "text".to_string(), text: s.to_string(), metadata: None })
}

fn user_message(s: &str) -> Message {
    Message { role: "user".to_string(), parts: vec![text_part(s)], metadata: None }
}

fn task_in(id: &str, state: TaskState) -> Task {
    Task {
        id: id.to_string(),
        session_id: None,
        status: TaskStatus { state, message: None, timestamp: Timestamp::from_parts(1, 0).unwrap() },
        artifacts: None,
        metadata: None,
    }
}

fn send_payload(request: Option<&str>, task: &str, said: &str) -> Json {
    let mut members = vec![("jsonrpc", text("2.0"))];
    if let Some(id) = request {
        members.push(("id", text(id)));
    }
    members.push(("method", text("tasks/send")));
    members.push((
        "params",
        object(vec![
            ("id", text(task)),
            (
                "message",
                object(vec![
                    ("role", text("user")),
                    (
                        "parts",
                        Json::Array(vec![object(vec![("type", text("text")), ("text", text(said))])]),
                    ),
                ]),
            ),
        ]),
    ));
    object(members)
}

fn id_payload(request: &str, method: &str, task: &str) -> Json {
    object(vec![
        ("jsonrpc", text("2.0")),
        ("id", text(request)),
        ("method", text(method)),
        ("params", object(vec![("id", text(task))])),
    ])
}

fn send_request(task: &str, said: &str) -> SendTaskRequest {
    SendTaskRequest {
        jsonrpc: "2.0".to_string(),
        id: Some("r".to_string()),
        method: "tasks/send".to_string(),
        params: TaskSendParams {
            id: task.to_string(),
            session_id: Some("s".to_string()),
            message: user_message(said),
            history_length: None,
            metadata: None,
        },
    }
}

fn sample_artifact() -> Artifact {
    Artifact {
        name: Some("result".to_string()),
        description: Some("Task result".to_string()),
        parts: vec![text_part("This is a sample artifact from the Rust A2A server.")],
        index: 0,
        append: None,
        metadata: None,
        last_chunk: Some(true),
    }
}

#[test]
fn scenario_send_on_empty_store_completes_the_task() {
    let mut state = new_state();
    let reply = handle_request(&mut state, &send_payload(Some("req-1"), "t1", "hi"));
    assert_eq!(reply.status, 200);
    assert_eq!(at(&reply.body, &["jsonrpc"]), &text("2.0"));
    assert_eq!(at(&reply.body, &["id"]), &text("req-1"));
    assert!(!has(&reply.body, "error"));
    assert_eq!(at(&reply.body, &["result", "id"]), &text("t1"));
    assert_eq!(at(&reply.body, &["result", "status", "state"]), &text("completed"));
    match at(&reply.body, &["result", "artifacts"]) {
        Json::Array(items) => assert_eq!(items.len(), 1),
        other => panic!("unexpected {:?}", other),
    }
    assert_eq!(
        at(&reply.body, &["result", "status", "message", "role"]),
        &text("agent")
    );
    let stored = state.task_store.get_task("t1").unwrap();
    assert_eq!(stored.status.state, TaskState::Completed);
    assert_eq!(stored.artifacts, Some(vec![sample_artifact()]));
}

#[test]
fn scenario_get_of_missing_task_is_an_error() {
    let mut state = new_state();
    let reply = handle_request(&mut state, &id_payload("q", "tasks/get", "missing"));
    assert_eq!(at(&reply.body, &["error", "code"]), &Json::Int(-32001));
    assert_eq!(at(&reply.body, &["error", "message"]), &text("Task not found: missing"));
    assert_eq!(at(&reply.body, &["error", "data"]), &Json::Null);
    assert_eq!(at(&reply.body, &["id"]), &text("q"));
    assert!(!has(&reply.body, "result"));
    assert_eq!(reply.status, 404);
}

#[test]
fn scenario_cancel_then_cancel_again() {
    let mut state = new_state();
    state.task_store.create_task(task_in("w", TaskState::Working)).unwrap();
    let first = handle_request(&mut state, &id_payload("c1", "tasks/cancel", "w"));
    assert_eq!(first.status, 200);
    assert_eq!(at(&first.body, &["result", "status", "state"]), &text("canceled"));
    assert_eq!(at(&first.body, &["id"]), &text("c1"));
    let second = handle_request(&mut state, &id_payload("c2", "tasks/cancel", "w"));
    assert_eq!(second.status, 400);
    assert_eq!(at(&second.body, &["error", "code"]), &Json::Int(-32002));
    assert_eq!(
        at(&second.body, &["error", "message"]),
        &text("Task cannot be canceled: Task w cannot be canceled in state Canceled")
    );
    assert_eq!(at(&second.body, &["id"]), &text("c2"));
}

#[test]
fn scenario_unknown_method() {
    let mut state = new_state();
    let reply = handle_request(&mut state, &id_payload("u", "tasks/frobnicate", "x"));
    assert_eq!(reply.status, 404);
    assert_eq!(at(&reply.body, &["error", "code"]), &Json::Int(-32601));
    assert_eq!(at(&reply.body, &["error", "message"]), &text("Method not found: tasks/frobnicate"));
    assert_eq!(at(&reply.body, &["id"]), &text("u"));
    assert!(!has(&reply.body, "result"));
}

#[test]
fn request_without_method_is_invalid() {
    let mut state = new_state();
    for payload in [
        object(vec![("jsonrpc", text("2.0")), ("id", text("m"))]),
        object(vec![("id", text("m")), ("method", Json::Int(3))]),
        object(vec![("id", text("m")), ("method", Json::Null)]),
    ] {
        let reply = handle_request(&mut state, &payload);
        assert_eq!(reply.status, 400);
        assert_eq!(at(&reply.body, &["error", "code"]), &Json::Int(-32600));
        assert_eq!(at(&reply.body, &["error", "message"]), &text("Invalid request: Missing method"));
        assert_eq!(at(&reply.body, &["id"]), &text("m"));
    }
    for payload in [Json::Null, Json::Array(vec![]), text("tasks/get"), Json::Bool(true)] {
        let reply = handle_request(&mut state, &payload);
        assert_eq!(at(&reply.body, &["error", "code"]), &Json::Int(-32600));
        assert_eq!(at(&reply.body, &["id"]), &Json::Null);
    }
}

#[test]
fn request_whose_parameters_do_not_read_is_invalid() {
    let mut state = new_state();
    let payloads = vec![
        object(vec![("jsonrpc", text("2.0")), ("id", text("p")), ("method", text("tasks/get"))]),
        object(vec![
            ("jsonrpc", text("2.0")),
            ("id", text("p")),
            ("method", text("tasks/get")),
            ("params", object(vec![])),
        ]),
        object(vec![
            ("jsonrpc", text("2.0")),
            ("id", text("p")),
            ("method", text("tasks/get")),
            ("params", object(vec![("id", Json::Int(4))])),
        ]),
        object(vec![
            ("id", text("p")),
            ("method", text("tasks/get")),
            ("params", object(vec![("id", text("t"))])),
        ]),
        object(vec![
            ("jsonrpc", text("2.0")),
            ("id", text("p")),
            ("method", text("tasks/get")),
            ("params", object(vec![("id", text("t")), ("historyLength", text("many"))])),
        ]),
    ];
    for payload in payloads {
        let reply = handle_request(&mut state, &payload);
        assert_eq!(reply.status, 400);
        assert_eq!(at(&reply.body, &["error", "code"]), &Json::Int(-32600));
        assert_eq!(
            at(&reply.body, &["error", "message"]),
            &text("Invalid request: Malformed request for tasks/get")
        );
        assert_eq!(at(&reply.body, &["id"]), &text("p"));
    }
    let send = object(vec![
        ("jsonrpc", text("2.0")),
        ("method", text("tasks/send")),
        ("params", object(vec![("id", text("t")), ("message", object(vec![("role", text("user"))]))])),
    ]);
    let reply = handle_request(&mut state, &send);
    assert_eq!(
        at(&reply.body, &["error", "message"]),
        &text("Invalid request: Malformed request for tasks/send")
    );
    let cancel = object(vec![
        ("jsonrpc", text("2.0")),
        ("method", text("tasks/cancel")),
        ("params", Json::Array(vec![])),
    ]);
    let reply = handle_request(&mut state, &cancel);
    assert_eq!(
        at(&reply.body, &["error", "message"]),
        &text("Invalid request: Malformed request for tasks/cancel")
    );
    assert!(state.task_store.get_task("t").is_err());
}

#[test]
fn id_that_is_no_string_is_not_repeated() {
    let mut state = new_state();
    let payload = object(vec![
        ("jsonrpc", text("2.0")),
        ("id", Json::Int(7)),
        ("method", text("tasks/get")),
        ("params", object(vec![("id", text("t"))])),
    ]);
    let reply = handle_request(&mut state, &payload);
    assert_eq!(at(&reply.body, &["id"]), &Json::Null);
    assert_eq!(at(&reply.body, &["error", "code"]), &Json::Int(-32600));
}

#[test]
fn request_without_id_is_answered_with_null_id() {
    let mut state = new_state();
    let reply = handle_request(&mut state, &send_payload(None, "t", "hello"));
    assert_eq!(reply.status, 200);
    assert_eq!(at(&reply.body, &["id"]), &Json::Null);
    assert_eq!(at(&reply.body, &["result", "status", "state"]), &text("completed"));
    let null_id = object(vec![
        ("jsonrpc", text("2.0")),
        ("id", Json::Null),
        ("method", text("tasks/get")),
        ("params", object(vec![("id", text("t"))])),
    ]);
    let reply = handle_request(&mut state, &null_id);
    assert_eq!(reply.status, 200);
    assert_eq!(at(&reply.body, &["id"]), &Json::Null);
}

#[test]
fn reply_says_what_was_received() {
    let mut state = new_state();
    let reply = handle_request(&mut state, &send_payload(Some("r"), "t", "hi"));
    assert_eq!(
        at(&reply.body, &["result", "status", "message", "parts"]),
        &Json::Array(vec![object(vec![
            ("type", text("text")),
            ("text", text("Rust A2A server received: hi")),
        ])])
    );
}

#[test]
fn send_at_a_given_instant_is_fully_determined() {
    let mut state = new_state();
    let now = Timestamp::from_parts(1714564800, 500_000_000).unwrap();
    let reply = handle_request_at(&mut state, &send_payload(Some("r"), "t", "hi"), now);
    let message = object(vec![
        ("role", text("agent")),
        (
            "parts",
            Json::Array(vec![object(vec![
                ("type", text("text")),
                ("text", text("Rust A2A server received: hi")),
            ])]),
        ),
    ]);
    let artifact = object(vec![
        ("name", text("result")),
        ("description", text("Task result")),
        (
            "parts",
            Json::Array(vec![object(vec![
                ("type", text("text")),
                ("text", text("This is a sample artifact from the Rust A2A server.")),
            ])]),
        ),
        ("index", Json::Int(0)),
        ("lastChunk", Json::Bool(true)),
    ]);
    let expected = object(vec![
        ("jsonrpc", text("2.0")),
        ("id", text("r")),
        (
            "result",
            object(vec![
                ("id", text("t")),
                (
                    "status",
                    object(vec![
                        ("state", text("completed")),
                        ("message", message),
                        ("timestamp", text("2024-05-01T12:00:00.500Z")),
                    ]),
                ),
                ("artifacts", Json::Array(vec![artifact])),
            ]),
        ),
    ]);
    assert_eq!(reply, RpcReply { status: 200, body: expected });
}

#[test]
fn send_to_a_task_that_waits_for_input_completes_it() {
    let mut state = new_state();
    let mut waiting = task_in("t", TaskState::InputRequired);
    waiting.session_id = Some("kept".to_string());
    waiting.artifacts = Some(vec![sample_artifact()]);
    state.task_store.create_task(waiting).unwrap();
    let now = Timestamp::from_parts(99, 1).unwrap();
    let task = handle_send_task(&mut state, send_request("t", "more"), now).unwrap();
    assert_eq!(task.status.state, TaskState::Completed);
    assert_eq!(task.status.timestamp, now);
    assert_eq!(
        task.status.message,
        Some(Message {
            role: "agent".to_string(),
            parts: vec![text_part("Rust A2A server received: more")],
            metadata: None,
        })
    );
    assert_eq!(task.session_id, Some("kept".to_string()));
    assert_eq!(task.artifacts, Some(vec![sample_artifact()]));
    assert_eq!(state.task_store.get_task("t").unwrap(), task);
}

#[test]
fn send_to_a_task_in_another_state_is_invalid() {
    for state_of_task in [
        TaskState::Submitted,
        TaskState::Working,
        TaskState::Completed,
        TaskState::Canceled,
        TaskState::Failed,
        TaskState::Rejected,
        TaskState::Unknown,
    ] {
        let mut state = new_state();
        let before = task_in("t", state_of_task);
        state.task_store.create_task(before.clone()).unwrap();
        let result = handle_send_task(&mut state, send_request("t", "x"), Timestamp::now());
        assert_eq!(
            result,
            Err(A2AError::InvalidRequest("Task t is not in input-required state".to_string()))
        );
        assert_eq!(state.task_store.get_task("t").unwrap(), before);
    }
    let mut state = new_state();
    handle_request(&mut state, &send_payload(Some("a"), "t", "one"));
    let reply = handle_request(&mut state, &send_payload(Some("b"), "t", "two"));
    assert_eq!(reply.status, 400);
    assert_eq!(at(&reply.body, &["error", "code"]), &Json::Int(-32600));
    assert_eq!(
        at(&reply.body, &["error", "message"]),
        &text("Invalid request: Task t is not in input-required state")
    );
}

#[test]
fn send_creates_the_task_with_the_session_of_the_request() {
    let mut state = new_state();
    let now = Timestamp::from_parts(5, 0).unwrap();
    let task = handle_send_task(&mut state, send_request("fresh", "hi"), now).unwrap();
    assert_eq!(
        task,
        Task {
            id: "fresh".to_string(),
            session_id: Some("s".to_string()),
            status: TaskStatus {
                state: TaskState::Completed,
                message: Some(Message {
                    role: "agent".to_string(),
                    parts: vec![text_part("Rust A2A server received: hi")],
                    metadata: None,
                }),
                timestamp: now,
            },
            artifacts: Some(vec![sample_artifact()]),
            metadata: None,
        }
    );
}

#[test]
fn get_and_cancel_handlers() {
    let mut state = new_state();
    state.task_store.create_task(task_in("t", TaskState::Submitted)).unwrap();
    let get = GetTaskRequest {
        jsonrpc: "2.0".to_string(),
        id: None,
        method: "tasks/get".to_string(),
        params: TaskQueryParams { id: "t".to_string(), history_length: Some(2), metadata: None },
    };
    assert_eq!(handle_get_task(&state, get).unwrap(), task_in("t", TaskState::Submitted));
    let cancel = CancelTaskRequest {
        jsonrpc: "2.0".to_string(),
        id: None,
        method: "tasks/cancel".to_string(),
        params: TaskIdParams { id: "t".to_string(), metadata: None },
    };
    let now = Timestamp::from_parts(77, 0).unwrap();
    let canceled = handle_cancel_task(&mut state, cancel.clone(), now).unwrap();
    assert_eq!(canceled.status.state, TaskState::Canceled);
    assert_eq!(canceled.status.timestamp, now);
    assert!(matches!(
        handle_cancel_task(&mut state, cancel, now),
        Err(A2AError::TaskNotCancelable(_))
    ));
    let missing = GetTaskRequest {
        jsonrpc: "2.0".to_string(),
        id: None,
        method: "tasks/get".to_string(),
        params: TaskQueryParams { id: "zz".to_string(), history_length: None, metadata: None },
    };
    assert_eq!(handle_get_task(&state, missing), Err(A2AError::TaskNotFound("zz".to_string())));
}

#[test]
fn process_message_joins_the_texts() {
    let message = Message {
        role: "user".to_string(),
        parts: vec![
            text_part("one"),
            Part::Data(DataPart { part_type: "data".to_string(), data: vec![], metadata: None }),
            text_part("two"),
            text_part(""),
            text_part("three"),
        ],
        metadata: None,
    };
    let reply = process_message(&message).unwrap();
    assert_eq!(reply.role, "agent");
    assert_eq!(reply.parts, vec![text_part("Rust A2A server received: one two  three")]);
    assert_eq!(reply.metadata, None);
}

#[test]
fn process_message_without_text() {
    let empty = Message { role: "user".to_string(), parts: vec![], metadata: None };
    assert_eq!(
        process_message(&empty).unwrap().parts,
        vec![text_part("Rust A2A server received: ")]
    );
    let no_text = Message {
        role: "user".to_string(),
        parts: vec![Part::Data(DataPart {
            part_type: "data".to_string(),
            data: vec![],
            metadata: None,
        })],
        metadata: None,
    };
    assert_eq!(
        process_message(&no_text).unwrap().parts,
        vec![text_part("Rust A2A server received: ")]
    );
    let leading_empty = Message {
        role: "user".to_string(),
        parts: vec![text_part(""), text_part("x")],
        metadata: None,
    };
    assert_eq!(
        process_message(&leading_empty).unwrap().parts,
        vec![text_part("Rust A2A server received:  x")]
    );
}

#[test]
fn method_and_id_of_a_request() {
    let payload = id_payload("abc", "tasks/get", "t");
    assert_eq!(request_method(&payload), Some("tasks/get".to_string()));
    assert_eq!(request_id(&payload), Some("abc".to_string()));
    assert_eq!(request_method(&Json::Null), None);
    assert_eq!(request_id(&Json::Null), None);
    assert_eq!(request_id(&object(vec![("id", Json::Bool(false))])), None);
}

#[test]
fn dispatch_gives_the_task_or_the_error() {
    let mut state = new_state();
    let now = Timestamp::from_parts(3, 0).unwrap();
    let created = dispatch(&mut state, &send_payload(Some("r"), "t", "x"), now).unwrap();
    assert_eq!(dispatch(&mut state, &id_payload("r", "tasks/get", "t"), now), Ok(created));
    assert_eq!(
        dispatch(&mut state, &id_payload("r", "tasks/cancel", "t"), now),
        Err(A2AError::TaskNotCancelable(
            "Task t cannot be canceled in state Completed".to_string()
        ))
    );
    assert_eq!(
        dispatch(&mut state, &id_payload("r", "tasks/resubscribe", "t"), now),
        Err(A2AError::MethodNotFound("tasks/resubscribe".to_string()))
    );
    assert_eq!(
        dispatch(&mut state, &id_payload("r", "", "t"), now),
        Err(A2AError::MethodNotFound("".to_string()))
    );
}

#[test]
fn stored_task_is_always_answered_as_a_success() {
    let mut state = new_state();
    let mut task = task_in("t", TaskState::Working);
    task.status.timestamp = Timestamp::from_parts(253_402_300_799, 999_999_999).unwrap();
    state.task_store.create_task(task).unwrap();
    let reply = handle_request(&mut state, &id_payload("g", "tasks/get", "t"));
    assert_eq!(reply.status, 200);
    assert_eq!(
        at(&reply.body, &["result", "status", "timestamp"]),
        &text("9999-12-31T23:59:59.999999999Z")
    );
    assert_eq!(at(&reply.body, &["id"]), &text("g"));
    assert!(!has(&reply.body, "error"));
}

#[test]
fn reply_has_a_result_or_an_error_and_never_both() {
    let ok = reply(Some("i".to_string()), Ok(task_in("t", TaskState::Working)));
    assert!(has(&ok.body, "result"));
    assert!(!has(&ok.body, "error"));
    let err = reply(Some("i".to_string()), Err(A2AError::UnsupportedOperation("x".to_string())));
    assert!(!has(&err.body, "result"));
    assert!(has(&err.body, "error"));
    assert_eq!(err.status, 400);
    assert_eq!(at(&err.body, &["error", "code"]), &Json::Int(-32004));
    let direct = failure(None, A2AError::HttpError("down".to_string()));
    assert_eq!(direct.status, 500);
    assert_eq!(at(&direct.body, &["id"]), &Json::Null);
    assert_eq!(
        at(&direct.body, &["error", "message"]),
        &text("Internal server error: HTTP request error: down")
    );
}

#[test]
fn requests_announce_what_they_change() {
    let mut state = new_state();
    let mut rx = state.task_store.subscribe().into_receiver();
    handle_request(&mut state, &send_payload(Some("a"), "t", "one"));
    handle_request(&mut state, &id_payload("b", "tasks/get", "t"));
    handle_request(&mut state, &id_payload("c", "tasks/cancel", "t"));
    handle_request(&mut state, &id_payload("d", "tasks/none", "t"));
    handle_request(&mut state, &send_payload(Some("e"), "t", "two"));
    let first = rx.try_recv().unwrap();
    assert_eq!(first.id, "t");
    assert_eq!(first.status.state, TaskState::Completed);
    assert!(rx.try_recv().is_err());
}
