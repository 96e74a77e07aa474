use a2a_rust::client::{
    cancel_task_request, extract_result, get_task_request, http_failure, new_cancel_task_request,
    new_get_task_request, new_send_task_request, read_reply, read_response, send_task_request,
};
use a2a_rust::error::A2AError;
use a2a_rust::json::Json;
use a2a_rust::server::{handle_request, AppState};
use a2a_rust::store::TaskStore;
use a2a_rust::types::{
    CancelTaskRequest, GetTaskRequest, JsonRpcError, JsonRpcMessage, JsonRpcResponse, Message,
    Part, SendTaskRequest, Task, TaskIdParams, TaskQueryParams, TaskSendParams, TaskState,
    TextPart,
};

fn text(s: &str) -> Json {
    Json::String(s.to_string())
}

fn object(members: Vec<(&str, Json)>) -> Json {
    Json::Object(members.into_iter().map(|(k, v)| (k.to_string(), v)).collect())
}

#[test]
fn send_request_is_built_from_its_parts() {
    let request =
        send_task_request("r".to_string(), "t".to_string(), "s".to_string(), "hello agent");
    assert_eq!(
        request,
        SendTaskRequest {
            jsonrpc: "2.0".to_string(),
            id: Some("r".to_string()),
            method: "tasks/send".to_string(),
            params: TaskSendParams {
                id: "t".to_string(),
                session_id: Some("s".to_string()),
                message: Message {
                    role: "user".to_string(),
                    parts: vec![Part::Text(TextPart {
                        part_type: "text".to_string(),
                        text: "hello agent".to_string(),
                        metadata: None,
                    })],
                    metadata: None,
                },
                history_length: None,
                metadata: None,
            },
        }
    );
}

#[test]
fn get_and_cancel_requests_are_built_from_their_parts() {
    assert_eq!(
        get_task_request("r".to_string(), "t"),
        GetTaskRequest {
            jsonrpc: "2.0".to_string(),
            id: Some("r".to_string()),
            method: "tasks/get".to_string(),
            params: TaskQueryParams { id: "t".to_string(), history_length: None, metadata: None },
        }
    );
    assert_eq!(
        cancel_task_request("r".to_string(), "t"),
        CancelTaskRequest {
            jsonrpc: "2.0".to_string(),
            id: Some("r".to_string()),
            method: "tasks/cancel".to_string(),
            params: TaskIdParams { id: "t".to_string(), metadata: None },
        }
    );
}

#[test]
fn new_requests_draw_fresh_ids() {
    let a = new_send_task_request("x");
    let b = new_send_task_request("x");
    assert_ne!(a.id, b.id);
    assert_ne!(a.params.id, b.params.id);
    assert_ne!(a.params.session_id, b.params.session_id);
    assert_ne!(a.id.as_ref(), Some(&a.params.id));
    assert_eq!(a.params.id.len(), 36);
    assert_eq!(a.params.message, b.params.message);
    let g = new_get_task_request("t");
    assert_eq!(g.params.id, "t");
    assert_eq!(g.id.unwrap().len(), 36);
    let c = new_cancel_task_request("t");
    assert_eq!(c.params.id, "t");
    assert_eq!(c.method, "tasks/cancel");
}

#[test]
fn default_requests() {
    let send = SendTaskRequest::default();
    assert_eq!(send.jsonrpc, "2.0");
    assert_eq!(send.method, "tasks/send");
    assert!(send.id.is_some());
    assert!(send.params.session_id.is_some());
    assert_eq!(
        send.params.message,
        Message { role: "user".to_string(), parts: vec![], metadata: None }
    );
    assert_ne!(SendTaskRequest::default().params.id, send.params.id);
    let get = GetTaskRequest::default();
    assert_eq!(get.method, "tasks/get");
    assert_eq!(get.params.history_length, None);
    let cancel = CancelTaskRequest::default();
    assert_eq!(cancel.method, "tasks/cancel");
    assert_eq!(cancel.params.metadata, None);
    let message = JsonRpcMessage::default();
    assert_eq!(message.jsonrpc, "2.0");
    assert_eq!(message.id.unwrap().len(), 36);
    let response = JsonRpcResponse::<Task>::default();
    assert_eq!(response.jsonrpc, "2.0");
    assert!(response.id.is_some());
    assert!(response.result.is_none());
    assert!(response.error.is_none());
}

#[test]
fn requests_on_the_wire() {
    let request = send_task_request("r".to_string(), "t".to_string(), "s".to_string(), "hi");
    let wire = request.to_json();
    assert_eq!(
        wire,
        object(vec![
            ("jsonrpc", text("2.0")),
            ("id", text("r")),
            ("method", text("tasks/send")),
            (
                "params",
                object(vec![
                    ("id", text("t")),
                    ("sessionId", text("s")),
                    (
                        "message",
                        object(vec![
                            ("role", text("user")),
                            (
                                "parts",
                                Json::Array(vec![object(vec![
                                    ("type", text("text")),
                                    ("text", text("hi")),
                                ])])
                            ),
                        ])
                    ),
                ])
            ),
        ])
    );
    assert_eq!(SendTaskRequest::from_json(&wire), Some(request));

    let mut get = get_task_request("r".to_string(), "t");
    get.params.history_length = Some(-3);
    get.id = None;
    let wire = get.to_json();
    assert_eq!(
        wire,
        object(vec![
            ("jsonrpc", text("2.0")),
            ("id", Json::Null),
            ("method", text("tasks/get")),
            ("params", object(vec![("id", text("t")), ("historyLength", Json::Int(-3))])),
        ])
    );
    assert_eq!(GetTaskRequest::from_json(&wire), Some(get));

    let mut cancel = cancel_task_request("r".to_string(), "t");
    cancel.params.metadata = Some(vec![("why".to_string(), text("user"))]);
    let wire = cancel.to_json();
    assert_eq!(CancelTaskRequest::from_json(&wire), Some(cancel));
    assert_eq!(TaskIdParams::from_json(&object(vec![("id", Json::Null)])), None);
}

#[test]
fn result_is_taken_out_of_a_response() {
    let ok = JsonRpcResponse {
        jsonrpc: "2.0".to_string(),
        id: None,
        result: Some(5u8),
        error: None,
    };
    assert_eq!(extract_result(ok), Ok(5u8));
    let failed = JsonRpcResponse {
        jsonrpc: "2.0".to_string(),
        id: None,
        result: Some(5u8),
        error: Some(JsonRpcError { code: -32001, message: "Task not found: t".to_string(), data: None }),
    };
    assert_eq!(extract_result(failed), Err(A2AError::InvalidRequest("Task not found: t".to_string())));
    let empty: JsonRpcResponse<u8> =
        JsonRpcResponse { jsonrpc: "2.0".to_string(), id: None, result: None, error: None };
    assert_eq!(
        extract_result(empty),
        Err(A2AError::InvalidRequest("No result in response".to_string()))
    );
}

#[test]
fn http_failure_names_the_status() {
    assert_eq!(
        http_failure("404 Not Found"),
        A2AError::InvalidRequest("HTTP error: 404 Not Found".to_string())
    );
}

#[test]
fn client_reads_what_the_server_writes() {
    let mut state = AppState { task_store: TaskStore::new() };
    let request = send_task_request("r".to_string(), "t".to_string(), "s".to_string(), "ping");
    let reply = handle_request(&mut state, &request.to_json());
    let task = read_response(&reply.body).unwrap();
    assert_eq!(task, state.task_store.get_task("t").unwrap());
    assert_eq!(task.status.state, TaskState::Completed);
    assert_eq!(task.session_id, Some("s".to_string()));

    let reply = handle_request(&mut state, &get_task_request("g".to_string(), "nope").to_json());
    assert_eq!(
        read_response(&reply.body),
        Err(A2AError::InvalidRequest("Task not found: nope".to_string()))
    );
    let reply = handle_request(&mut state, &cancel_task_request("c".to_string(), "t").to_json());
    assert_eq!(
        read_response(&reply.body),
        Err(A2AError::InvalidRequest(
            "Task cannot be canceled: Task t cannot be canceled in state Completed".to_string()
        ))
    );
}

#[test]
fn body_that_is_no_response_does_not_read() {
    assert_eq!(
        read_response(&Json::Null),
        Err(A2AError::SerializationError("the response does not read".to_string()))
    );
    assert_eq!(
        read_response(&object(vec![("jsonrpc", text("2.0")), ("result", text("task"))])),
        Err(A2AError::SerializationError("the response does not read".to_string()))
    );
    assert_eq!(
        read_response(&object(vec![("jsonrpc", text("2.0")), ("id", Json::Null)])),
        Err(A2AError::InvalidRequest("No result in response".to_string()))
    );
}

#[test]
fn error_on_the_wire() {
    let error = JsonRpcError {
        code: -32004,
        message: "Unsupported operation: x".to_string(),
        data: Some(object(vec![("hint", text("later"))])),
    };
    let wire = error.to_json();
    assert_eq!(
        wire,
        object(vec![
            ("code", Json::Int(-32004)),
            ("message", text("Unsupported operation: x")),
            ("data", object(vec![("hint", text("later"))])),
        ])
    );
    assert_eq!(JsonRpcError::from_json(&wire), Some(error));
    assert_eq!(
        JsonRpcError::from_json(&object(vec![("code", Json::Int(1)), ("message", text("m"))])),
        Some(JsonRpcError { code: 1, message: "m".to_string(), data: None })
    );
    assert_eq!(JsonRpcError::from_json(&object(vec![("message", text("m"))])), None);
    assert_eq!(
        JsonRpcError::from_json(&object(vec![("code", text("1")), ("message", text("m"))])),
        None
    );
}

#[test]
fn reply_is_read_by_its_status_first() {
    let mut state = AppState { task_store: TaskStore::new() };
    let request = send_task_request("r".to_string(), "t".to_string(), "s".to_string(), "ping");
    let reply = handle_request(&mut state, &request.to_json());
    assert_eq!(
        read_reply(true, "200 OK", &reply.body),
        Ok(state.task_store.get_task("t").unwrap())
    );
    assert_eq!(
        read_reply(false, "502 Bad Gateway", &reply.body),
        Err(A2AError::InvalidRequest("HTTP error: 502 Bad Gateway".to_string()))
    );
    assert_eq!(
        read_reply(true, "200 OK", &Json::Null),
        Err(A2AError::SerializationError("the response does not read".to_string()))
    );
}
