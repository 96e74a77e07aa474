use a2a_rust::error::A2AError;
use a2a_rust::store::TaskStore;
use a2a_rust::time::Timestamp;
use a2a_rust::types::{
    Artifact, Message, Part, Task, TaskState, TaskStatus, TextPart,
};
use uuid::Uuid;

fn task_in(id: &str, state: TaskState) -> Task {
    Task {
        id: id.to_string(),
        session_id: Some("session".to_string()),
        status: TaskStatus { state, message: None, timestamp: Timestamp::from_parts(10, 0).unwrap() },
        artifacts: None,
        metadata: None,
    }
}

fn text_message(role: &str, text: &str) -> Message {
    Message {
        role: role.to_string(),
        parts: vec![Part::Text(TextPart {
            part_type: "text".to_string(),
            text: text.to_string(),
            metadata: None,
        })],
        metadata: None,
    }
}

fn text_artifact(text: &str) -> Artifact {
    Artifact {
        name: Some("out".to_string()),
        description: None,
        parts: vec![Part::Text(TextPart {
            part_type: "text".to_string(),
            text: text.to_string(),
            metadata: None,
        })],
        index: 0,
        append: None,
        metadata: None,
        last_chunk: None,
    }
}

#[test]
fn test_task_store_create_get() {
    let mut store = TaskStore::new();
    let task_id = Uuid::new_v4().to_string();

    let task = Task {
        id: task_id.clone(),
        session_id: Some(Uuid::new_v4().to_string()),
        status: TaskStatus {
            state: TaskState::Submitted,
            message: None,
            timestamp: Timestamp::now(),
        },
        artifacts: None,
        metadata: None,
    };

    // Create task
    let created_task = store.create_task(task.clone()).unwrap();
    assert_eq!(created_task.id, task_id);

    // Get task
    let retrieved_task = store.get_task(&task_id).unwrap();
    assert_eq!(retrieved_task.id, task_id);
    assert_eq!(retrieved_task.status.state, TaskState::Submitted);
}

#[test]
fn test_task_store_update_status() {
    let mut store = TaskStore::new();
    let task_id = Uuid::new_v4().to_string();

    let task = Task {
        id: task_id.clone(),
        session_id: Some(Uuid::new_v4().to_string()),
        status: TaskStatus {
            state: TaskState::Submitted,
            message: None,
            timestamp: Timestamp::now(),
        },
        artifacts: None,
        metadata: None,
    };

    // Create task
    store.create_task(task.clone()).unwrap();

    // Update status
    let new_status = TaskStatus {
        state: TaskState::Working,
        message: Some(Message {
            role: "agent".to_string(),
            parts: vec![Part::Text(TextPart {
                part_type: "text".to_string(),
                text: "Working on it...".to_string(),
                metadata: None,
            })],
            metadata: None,
        }),
        timestamp: Timestamp::now(),
    };

    let updated_task = store.update_task_status(&task_id, new_status).unwrap();
    assert_eq!(updated_task.id, task_id);
    assert_eq!(updated_task.status.state, TaskState::Working);

    // Verify the update
    let retrieved_task = store.get_task(&task_id).unwrap();
    assert_eq!(retrieved_task.status.state, TaskState::Working);

    if let Some(message) = retrieved_task.status.message {
        if let Part::Text(text_part) = &message.parts[0] {
            assert_eq!(text_part.text, "Working on it...");
        } else {
            panic!("Retrieved part is not a TextPart");
        }
    } else {
        panic!("Retrieved message is None");
    }
}

#[test]
fn test_task_store_cancel() {
    let mut store = TaskStore::new();
    let task_id = Uuid::new_v4().to_string();

    let task = Task {
        id: task_id.clone(),
        session_id: Some(Uuid::new_v4().to_string()),
        status: TaskStatus {
            state: TaskState::Working,
            message: None,
            timestamp: Timestamp::now(),
        },
        artifacts: None,
        metadata: None,
    };

    // Create task
    store.create_task(task.clone()).unwrap();

    // Cancel task
    let canceled_task = store.cancel_task(&task_id).unwrap();
    assert_eq!(canceled_task.id, task_id);
    assert_eq!(canceled_task.status.state, TaskState::Canceled);

    // Verify the cancellation
    let retrieved_task = store.get_task(&task_id).unwrap();
    assert_eq!(retrieved_task.status.state, TaskState::Canceled);
}

#[test]
fn get_of_unknown_id_is_not_found() {
    let mut store = TaskStore::new();
    assert_eq!(store.get_task("nobody"), Err(A2AError::TaskNotFound("nobody".to_string())));
    store.create_task(task_in("a", TaskState::Working)).unwrap();
    assert_eq!(store.get_task("b"), Err(A2AError::TaskNotFound("b".to_string())));
    assert_eq!(store.get_task(""), Err(A2AError::TaskNotFound("".to_string())));
}

#[test]
fn created_task_is_returned_as_given() {
    let mut store = TaskStore::new();
    let mut task = task_in("t-1", TaskState::InputRequired);
    task.status.message = Some(text_message("user", "hello"));
    let created = store.create_task(task.clone()).unwrap();
    assert_eq!(created, task);
    assert_eq!(store.get_task("t-1").unwrap(), task);
}

#[test]
fn create_replaces_task_with_same_id() {
    let mut store = TaskStore::new();
    store.create_task(task_in("same", TaskState::Completed)).unwrap();
    store.create_task(task_in("other", TaskState::Working)).unwrap();
    let again = task_in("same", TaskState::Submitted);
    store.create_task(again.clone()).unwrap();
    assert_eq!(store.get_task("same").unwrap(), again);
    assert_eq!(store.get_task("other").unwrap().status.state, TaskState::Working);
}

#[test]
fn update_status_of_unknown_id_is_not_found() {
    let mut store = TaskStore::new();
    let status =
        TaskStatus { state: TaskState::Working, message: None, timestamp: Timestamp::now() };
    assert_eq!(
        store.update_task_status("ghost", status),
        Err(A2AError::TaskNotFound("ghost".to_string()))
    );
}

#[test]
fn update_status_is_not_held_against_the_state() {
    let mut store = TaskStore::new();
    store.create_task(task_in("done", TaskState::Completed)).unwrap();
    let back = TaskStatus {
        state: TaskState::Submitted,
        message: Some(text_message("agent", "again")),
        timestamp: Timestamp::from_parts(5, 7).unwrap(),
    };
    let updated = store.update_task_status("done", back.clone()).unwrap();
    assert_eq!(updated.status, back);
    assert_eq!(updated.session_id, Some("session".to_string()));
    assert_eq!(store.get_task("done").unwrap(), updated);
}

#[test]
fn latest_status_is_read_after_writes_to_other_tasks() {
    let mut store = TaskStore::new();
    store.create_task(task_in("a", TaskState::Submitted)).unwrap();
    store.create_task(task_in("b", TaskState::Submitted)).unwrap();
    let first =
        TaskStatus { state: TaskState::Working, message: None, timestamp: Timestamp::now() };
    let second =
        TaskStatus { state: TaskState::Failed, message: None, timestamp: Timestamp::now() };
    store.update_task_status("a", first).unwrap();
    store.update_task_status("a", second.clone()).unwrap();
    store
        .update_task_status(
            "b",
            TaskStatus { state: TaskState::Working, message: None, timestamp: Timestamp::now() },
        )
        .unwrap();
    store.add_artifact("b", text_artifact("x")).unwrap();
    store.cancel_task("b").unwrap();
    store.create_task(task_in("c", TaskState::Unknown)).unwrap();
    assert_eq!(store.get_task("a").unwrap().status, second);
}

#[test]
fn add_artifact_begins_and_extends_the_list() {
    let mut store = TaskStore::new();
    store.create_task(task_in("t", TaskState::Working)).unwrap();
    let one = store.add_artifact("t", text_artifact("first")).unwrap();
    assert_eq!(one.artifacts, Some(vec![text_artifact("first")]));
    let two = store.add_artifact("t", text_artifact("second")).unwrap();
    assert_eq!(two.artifacts, Some(vec![text_artifact("first"), text_artifact("second")]));
    assert_eq!(store.get_task("t").unwrap(), two);
    assert_eq!(two.status.state, TaskState::Working);
}

#[test]
fn add_artifact_to_unknown_id_is_not_found() {
    let mut store = TaskStore::new();
    assert_eq!(
        store.add_artifact("ghost", text_artifact("x")),
        Err(A2AError::TaskNotFound("ghost".to_string()))
    );
}

#[test]
fn cancel_succeeds_in_exactly_the_cancelable_states() {
    let states = [
        (TaskState::Submitted, true),
        (TaskState::Working, true),
        (TaskState::InputRequired, true),
        (TaskState::Completed, false),
        (TaskState::Canceled, false),
        (TaskState::Failed, false),
        (TaskState::Rejected, false),
        (TaskState::Unknown, false),
    ];
    for (state, cancelable) in states {
        let mut store = TaskStore::new();
        let task = task_in("t", state);
        store.create_task(task.clone()).unwrap();
        let result = store.cancel_task("t");
        assert_eq!(result.is_ok(), cancelable);
        assert_eq!(state.is_cancelable(), cancelable);
        if cancelable {
            assert_eq!(store.get_task("t").unwrap().status.state, TaskState::Canceled);
        } else {
            assert!(matches!(result, Err(A2AError::TaskNotCancelable(_))));
            assert_eq!(store.get_task("t").unwrap(), task);
        }
    }
}

#[test]
fn cancel_refusal_names_task_and_state() {
    let mut store = TaskStore::new();
    store.create_task(task_in("t9", TaskState::Completed)).unwrap();
    assert_eq!(
        store.cancel_task("t9"),
        Err(A2AError::TaskNotCancelable(
            "Task t9 cannot be canceled in state Completed".to_string()
        ))
    );
    store.create_task(task_in("unk", TaskState::Unknown)).unwrap();
    assert_eq!(
        store.cancel_task_at("unk", Timestamp::from_parts(1, 2).unwrap()),
        Err(A2AError::TaskNotCancelable(
            "Task unk cannot be canceled in state Unknown".to_string()
        ))
    );
}

#[test]
fn cancel_of_unknown_id_is_not_found() {
    let mut store = TaskStore::new();
    assert_eq!(store.cancel_task("ghost"), Err(A2AError::TaskNotFound("ghost".to_string())));
}

#[test]
fn cancel_keeps_message_and_sets_instant() {
    let mut store = TaskStore::new();
    let mut task = task_in("t", TaskState::InputRequired);
    task.status.message = Some(text_message("agent", "need more"));
    task.artifacts = Some(vec![text_artifact("kept")]);
    store.create_task(task.clone()).unwrap();
    let at = Timestamp::from_parts(1_700_000_000, 123).unwrap();
    let canceled = store.cancel_task_at("t", at).unwrap();
    assert_eq!(canceled.status.state, TaskState::Canceled);
    assert_eq!(canceled.status.timestamp, at);
    assert_eq!(canceled.status.message, task.status.message);
    assert_eq!(canceled.artifacts, task.artifacts);
    assert_eq!(canceled.session_id, task.session_id);
    assert_eq!(store.get_task("t").unwrap(), canceled);
}

#[test]
fn second_cancel_is_refused() {
    let mut store = TaskStore::new();
    store.create_task(task_in("t", TaskState::Working)).unwrap();
    store.cancel_task("t").unwrap();
    assert_eq!(
        store.cancel_task("t"),
        Err(A2AError::TaskNotCancelable("Task t cannot be canceled in state Canceled".to_string()))
    );
}

#[test]
fn subscriber_gets_one_snapshot_per_successful_change() {
    let mut store = TaskStore::new();
    let mut rx = store.subscribe().into_receiver();
    let created = store.create_task(task_in("t", TaskState::Submitted)).unwrap();
    let updated = store
        .update_task_status(
            "t",
            TaskStatus {
                state: TaskState::Working,
                message: None,
                timestamp: Timestamp::from_parts(11, 0).unwrap(),
            },
        )
        .unwrap();
    let extended = store.add_artifact("t", text_artifact("a")).unwrap();
    let canceled = store.cancel_task("t").unwrap();
    assert_eq!(rx.try_recv().unwrap(), created);
    assert_eq!(rx.try_recv().unwrap(), updated);
    assert_eq!(rx.try_recv().unwrap(), extended);
    assert_eq!(rx.try_recv().unwrap(), canceled);
    assert!(rx.try_recv().is_err());
}

#[test]
fn failed_change_is_not_announced() {
    let mut store = TaskStore::new();
    let mut rx = store.subscribe().into_receiver();
    store.create_task(task_in("t", TaskState::Completed)).unwrap();
    assert!(rx.try_recv().is_ok());
    assert!(store.cancel_task("t").is_err());
    assert!(store.cancel_task("ghost").is_err());
    assert!(store.add_artifact("ghost", text_artifact("x")).is_err());
    assert!(store
        .update_task_status(
            "ghost",
            TaskStatus { state: TaskState::Working, message: None, timestamp: Timestamp::now() },
        )
        .is_err());
    let _ = store.get_task("t");
    assert!(rx.try_recv().is_err());
}

#[test]
fn subscriber_sees_only_later_changes() {
    let mut store = TaskStore::new();
    store.create_task(task_in("early", TaskState::Submitted)).unwrap();
    let mut rx = store.subscribe().into_receiver();
    let mut other = store.subscribe().into_receiver();
    let late = store.create_task(task_in("late", TaskState::Submitted)).unwrap();
    assert_eq!(rx.try_recv().unwrap(), late);
    assert!(rx.try_recv().is_err());
    assert_eq!(other.try_recv().unwrap(), late);
}

#[test]
fn changes_without_subscriber_succeed() {
    let mut store = TaskStore::new();
    assert!(store.create_task(task_in("t", TaskState::Submitted)).is_ok());
    assert!(store.cancel_task("t").is_ok());
}

#[test]
fn slow_subscriber_misses_the_oldest_snapshots() {
    let mut store = TaskStore::new();
    let mut rx = store.subscribe().into_receiver();
    for i in 0..150 {
        store.create_task(task_in(&format!("t{}", i), TaskState::Submitted)).unwrap();
    }
    assert!(rx.try_recv().is_err());
    let mut seen = 0;
    while rx.try_recv().is_ok() {
        seen += 1;
    }
    assert!(seen < 150);
    assert!(seen >= 100);
}

#[test]
fn subscribing_changes_nothing_and_replays_nothing() {
    let mut store = TaskStore::new();
    let before = store.create_task(task_in("t", TaskState::Working)).unwrap();
    let sub = store.subscribe();
    assert_eq!(store.get_task("t").unwrap(), before);
    let mut rx = sub.into_receiver();
    assert!(rx.try_recv().is_err());
    let later = store.add_artifact("t", text_artifact("a")).unwrap();
    assert_eq!(rx.try_recv().unwrap(), later);
    assert!(rx.try_recv().is_err());
}

#[test]
fn subscriber_of_one_store_hears_nothing_of_another() {
    let mut one = TaskStore::new();
    let mut other = TaskStore::new();
    let mut rx = one.subscribe().into_receiver();
    other.create_task(task_in("t", TaskState::Working)).unwrap();
    assert!(rx.try_recv().is_err());
    let created = one.create_task(task_in("u", TaskState::Working)).unwrap();
    assert_eq!(rx.try_recv().unwrap(), created);
}
