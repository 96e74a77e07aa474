use a2a_rust::json::{find_member, Json};
use a2a_rust::time::Timestamp;
use a2a_rust::types::{
    Artifact, DataPart, FileContent, FilePart, Message, Part, Task, TaskArtifactUpdateEvent,
    TaskState, TaskStatus, TaskStatusUpdateEvent, TextPart,
};

fn member<'a>(j: &'a Json, key: &str) -> Option<&'a Json> {
    match j {
        Json::Object(members) => find_member(members, key),
        _ => None,
    }
}

fn text(s: &str) -> Json {
    Json::String(s.to_string())
}

fn object(members: Vec<(&str, Json)>) -> Json {
    Json::Object(members.into_iter().map(|(k, v)| (k.to_string(), v)).collect())
}

#[test]
fn test_task_state_serialization() {
    let states = vec![
        TaskState::Submitted,
        TaskState::Working,
        TaskState::InputRequired,
        TaskState::Completed,
        TaskState::Canceled,
        TaskState::Failed,
        TaskState::Rejected,
        TaskState::Unknown,
    ];

    for state in states {
        let serialized = state.to_json();
        let deserialized: TaskState = TaskState::from_json(&serialized).unwrap();
        assert_eq!(state, deserialized);
    }
}

#[test]
fn test_message_serialization() {
    let message = Message {
        role: "user".to_string(),
        parts: vec![Part::Text(TextPart {
            part_type: "text".to_string(),
            text: "Hello, world!".to_string(),
            metadata: None,
        })],
        metadata: None,
    };

    let serialized = message.to_json();
    let deserialized: Message = Message::from_json(&serialized).unwrap();

    assert_eq!(message.role, deserialized.role);
    assert_eq!(message.parts.len(), deserialized.parts.len());

    if let Part::Text(text_part) = &message.parts[0] {
        if let Part::Text(deserialized_text_part) = &deserialized.parts[0] {
            assert_eq!(text_part.text, deserialized_text_part.text);
        } else {
            panic!("Deserialized part is not a TextPart");
        }
    } else {
        panic!("Original part is not a TextPart");
    }
}

#[test]
fn test_task_serialization() {
    let task = Task {
        id: "task-123".to_string(),
        session_id: Some("session-456".to_string()),
        status: TaskStatus {
            state: TaskState::Completed,
            message: Some(Message {
                role: "agent".to_string(),
                parts: vec![Part::Text(TextPart {
                    part_type: "text".to_string(),
                    text: "Task completed successfully".to_string(),
                    metadata: None,
                })],
                metadata: None,
            }),
            timestamp: Timestamp::now(),
        },
        artifacts: None,
        metadata: None,
    };

    let serialized = task.to_json();
    let deserialized: Task = Task::from_json(&serialized).unwrap();

    assert_eq!(task.id, deserialized.id);
    assert_eq!(task.session_id, deserialized.session_id);
    assert_eq!(task.status.state, deserialized.status.state);

    if let Some(message) = &task.status.message {
        if let Some(deserialized_message) = &deserialized.status.message {
            assert_eq!(message.role, deserialized_message.role);
        } else {
            panic!("Deserialized message is None");
        }
    } else {
        panic!("Original message is None");
    }
}

#[test]
fn task_state_names_on_the_wire() {
    assert_eq!(TaskState::Submitted.to_json(), text("submitted"));
    assert_eq!(TaskState::Working.to_json(), text("working"));
    assert_eq!(TaskState::InputRequired.to_json(), text("input-required"));
    assert_eq!(TaskState::Completed.to_json(), text("completed"));
    assert_eq!(TaskState::Canceled.to_json(), text("canceled"));
    assert_eq!(TaskState::Failed.to_json(), text("failed"));
    assert_eq!(TaskState::Rejected.to_json(), text("rejected"));
    assert_eq!(TaskState::Unknown.to_json(), text("unknown"));
    assert_eq!(TaskState::from_json(&text("InputRequired")), None);
    assert_eq!(TaskState::from_json(&text("input_required")), None);
    assert_eq!(TaskState::from_json(&Json::Null), None);
    assert_eq!(TaskState::from_json(&Json::Int(3)), None);
}

#[test]
fn task_state_kinds() {
    assert!(TaskState::Completed.is_terminal());
    assert!(TaskState::Canceled.is_terminal());
    assert!(TaskState::Failed.is_terminal());
    assert!(TaskState::Rejected.is_terminal());
    assert!(!TaskState::Submitted.is_terminal());
    assert!(!TaskState::Working.is_terminal());
    assert!(!TaskState::InputRequired.is_terminal());
    assert!(!TaskState::Unknown.is_terminal());
    assert!(!TaskState::Unknown.is_cancelable());
    assert_eq!(TaskState::InputRequired.name(), "InputRequired");
}

#[test]
fn text_part_round_trip() {
    let part = Part::Text(TextPart {
        part_type: "text".to_string(),
        text: "hi there".to_string(),
        metadata: Some(vec![("lang".to_string(), text("en"))]),
    });
    let wire = part.to_json();
    assert_eq!(
        wire,
        object(vec![
            ("type", text("text")),
            ("text", text("hi there")),
            ("metadata", object(vec![("lang", text("en"))])),
        ])
    );
    assert_eq!(Part::from_json(&wire), Some(part));
}

#[test]
fn file_part_round_trip() {
    let part = Part::File(FilePart {
        part_type: "file".to_string(),
        file: FileContent {
            name: Some("a.txt".to_string()),
            mime_type: Some("text/plain".to_string()),
            bytes: Some("aGk=".to_string()),
            uri: None,
        },
        metadata: None,
    });
    let wire = part.to_json();
    assert_eq!(
        wire,
        object(vec![
            ("type", text("file")),
            (
                "file",
                object(vec![
                    ("name", text("a.txt")),
                    ("mimeType", text("text/plain")),
                    ("bytes", text("aGk=")),
                ])
            ),
        ])
    );
    assert_eq!(Part::from_json(&wire), Some(part));

    let by_uri = Part::File(FilePart {
        part_type: "file".to_string(),
        file: FileContent {
            name: None,
            mime_type: None,
            bytes: None,
            uri: Some("https://example.org/a".to_string()),
        },
        metadata: None,
    });
    assert_eq!(Part::from_json(&by_uri.to_json()), Some(by_uri));
}

#[test]
fn data_part_round_trip() {
    let part = Part::Data(DataPart {
        part_type: "data".to_string(),
        data: vec![
            ("n".to_string(), Json::Int(-4)),
            ("big".to_string(), Json::UInt(u64::MAX)),
            ("ratio".to_string(), Json::Float(0x3FF8_0000_0000_0000)),
            ("flags".to_string(), Json::Array(vec![Json::Bool(true), Json::Null])),
            ("nested".to_string(), object(vec![("text", text("not a text part"))])),
        ],
        metadata: Some(vec![]),
    });
    let wire = part.to_json();
    assert_eq!(member(&wire, "type"), Some(&text("data")));
    assert_eq!(Part::from_json(&wire), Some(part));
}

#[test]
fn part_variant_is_told_by_the_members() {
    let only_text = object(vec![("text", text("plain"))]);
    assert_eq!(
        Part::from_json(&only_text),
        Some(Part::Text(TextPart {
            part_type: "text".to_string(),
            text: "plain".to_string(),
            metadata: None,
        }))
    );
    let only_file = object(vec![("file", object(vec![("uri", text("u"))]))]);
    assert_eq!(
        Part::from_json(&only_file),
        Some(Part::File(FilePart {
            part_type: "file".to_string(),
            file: FileContent {
                name: None,
                mime_type: None,
                bytes: None,
                uri: Some("u".to_string())
            },
            metadata: None,
        }))
    );
    let only_data = object(vec![("data", object(vec![("k", Json::Int(1))]))]);
    assert_eq!(
        Part::from_json(&only_data),
        Some(Part::Data(DataPart {
            part_type: "data".to_string(),
            data: vec![("k".to_string(), Json::Int(1))],
            metadata: None,
        }))
    );
}

#[test]
fn text_member_wins_over_file_and_data() {
    let mixed = object(vec![
        ("data", object(vec![])),
        ("file", object(vec![])),
        ("text", text("t")),
        ("type", text("data")),
    ]);
    assert_eq!(
        Part::from_json(&mixed),
        Some(Part::Text(TextPart {
            part_type: "data".to_string(),
            text: "t".to_string(),
            metadata: None,
        }))
    );
    let file_and_data = object(vec![("data", object(vec![])), ("file", object(vec![]))]);
    assert!(matches!(Part::from_json(&file_and_data), Some(Part::File(_))));
    let bad_text_then_data = object(vec![("text", Json::Int(5)), ("data", object(vec![]))]);
    assert!(matches!(Part::from_json(&bad_text_then_data), Some(Part::Data(_))));
}

#[test]
fn part_that_is_none_of_the_three_does_not_read() {
    assert_eq!(Part::from_json(&object(vec![("type", text("text"))])), None);
    assert_eq!(Part::from_json(&object(vec![])), None);
    assert_eq!(Part::from_json(&Json::Null), None);
    assert_eq!(Part::from_json(&text("text")), None);
    assert_eq!(Part::from_json(&Json::Array(vec![])), None);
    assert_eq!(Part::from_json(&object(vec![("text", text("t")), ("type", Json::Int(1))])), None);
    assert_eq!(
        Part::from_json(&object(vec![("text", text("t")), ("metadata", text("no"))])),
        None
    );
    assert_eq!(Part::from_json(&object(vec![("file", text("not an object"))])), None);
    assert_eq!(Part::from_json(&object(vec![("data", Json::Array(vec![]))])), None);
}

#[test]
fn first_member_with_a_key_counts() {
    let twice = object(vec![("text", text("first")), ("text", text("second"))]);
    match Part::from_json(&twice) {
        Some(Part::Text(p)) => assert_eq!(p.text, "first"),
        other => panic!("unexpected {:?}", other),
    }
}

#[test]
fn default_parts() {
    assert_eq!(
        TextPart::default(),
        TextPart { part_type: "text".to_string(), text: String::new(), metadata: None }
    );
    assert_eq!(
        FilePart::default(),
        FilePart {
            part_type: "file".to_string(),
            file: FileContent { name: None, mime_type: None, bytes: None, uri: None },
            metadata: None,
        }
    );
    assert_eq!(
        DataPart::default(),
        DataPart { part_type: "data".to_string(), data: vec![], metadata: None }
    );
}

#[test]
fn message_on_the_wire() {
    let message = Message {
        role: "user".to_string(),
        parts: vec![
            Part::Text(TextPart {
                part_type: "text".to_string(),
                text: "a".to_string(),
                metadata: None,
            }),
            Part::Data(DataPart { part_type: "data".to_string(), data: vec![], metadata: None }),
        ],
        metadata: None,
    };
    let wire = message.to_json();
    assert_eq!(
        wire,
        object(vec![
            ("role", text("user")),
            (
                "parts",
                Json::Array(vec![
                    object(vec![("type", text("text")), ("text", text("a"))]),
                    object(vec![("type", text("data")), ("data", object(vec![]))]),
                ])
            ),
        ])
    );
    assert_eq!(Message::from_json(&wire), Some(message));
}

#[test]
fn message_that_does_not_read() {
    assert_eq!(Message::from_json(&object(vec![("role", text("user"))])), None);
    assert_eq!(Message::from_json(&object(vec![("parts", Json::Array(vec![]))])), None);
    assert_eq!(
        Message::from_json(&object(vec![("role", text("user")), ("parts", text("x"))])),
        None
    );
    assert_eq!(
        Message::from_json(&object(vec![
            ("role", text("user")),
            ("parts", Json::Array(vec![object(vec![("text", text("ok"))]), Json::Int(1)])),
        ])),
        None
    );
    assert_eq!(
        Message::from_json(&object(vec![
            ("role", text("user")),
            ("parts", Json::Array(vec![])),
            ("metadata", Json::Null),
        ])),
        Some(Message { role: "user".to_string(), parts: vec![], metadata: None })
    );
}

#[test]
fn artifact_round_trip_and_default_index() {
    let artifact = Artifact {
        name: Some("result".to_string()),
        description: Some("d".to_string()),
        parts: vec![Part::Text(TextPart {
            part_type: "text".to_string(),
            text: "x".to_string(),
            metadata: None,
        })],
        index: 3,
        append: Some(true),
        metadata: None,
        last_chunk: Some(false),
    };
    let wire = artifact.to_json();
    assert_eq!(member(&wire, "index"), Some(&Json::Int(3)));
    assert_eq!(member(&wire, "lastChunk"), Some(&Json::Bool(false)));
    assert_eq!(member(&wire, "append"), Some(&Json::Bool(true)));
    assert_eq!(member(&wire, "last_chunk"), None);
    assert_eq!(Artifact::from_json(&wire), Some(artifact));

    let bare = object(vec![("parts", Json::Array(vec![]))]);
    assert_eq!(
        Artifact::from_json(&bare),
        Some(Artifact {
            name: None,
            description: None,
            parts: vec![],
            index: 0,
            append: None,
            metadata: None,
            last_chunk: None,
        })
    );
    let wide = object(vec![("parts", Json::Array(vec![])), ("index", Json::Int(1 << 40))]);
    assert_eq!(Artifact::from_json(&wide), None);
    let unsigned = object(vec![("parts", Json::Array(vec![])), ("index", Json::UInt(7))]);
    assert_eq!(Artifact::from_json(&unsigned).unwrap().index, 7);
    let fraction =
        object(vec![("parts", Json::Array(vec![])), ("index", Json::Float(0x3FF8_0000_0000_0000))]);
    assert_eq!(Artifact::from_json(&fraction), None);
}

#[test]
fn task_on_the_wire() {
    let task = Task {
        id: "t".to_string(),
        session_id: Some("s".to_string()),
        status: TaskStatus {
            state: TaskState::InputRequired,
            message: None,
            timestamp: Timestamp::from_parts(1714564800, 0).unwrap(),
        },
        artifacts: Some(vec![]),
        metadata: None,
    };
    let wire = task.to_json();
    assert_eq!(
        wire,
        object(vec![
            ("id", text("t")),
            ("sessionId", text("s")),
            (
                "status",
                object(vec![
                    ("state", text("input-required")),
                    ("timestamp", text("2024-05-01T12:00:00Z")),
                ])
            ),
            ("artifacts", Json::Array(vec![])),
        ])
    );
    assert_eq!(Task::from_json(&wire), Some(task));
}

#[test]
fn task_that_does_not_read() {
    let status = object(vec![
        ("state", text("working")),
        ("timestamp", text("2024-05-01T12:00:00Z")),
    ]);
    assert!(Task::from_json(&object(vec![("id", text("t")), ("status", status.clone())])).is_some());
    assert_eq!(Task::from_json(&object(vec![("status", status.clone())])), None);
    assert_eq!(Task::from_json(&object(vec![("id", text("t"))])), None);
    assert_eq!(
        Task::from_json(&object(vec![
            ("id", text("t")),
            ("status", object(vec![("state", text("working")), ("timestamp", text("noon"))])),
        ])),
        None
    );
    assert_eq!(
        Task::from_json(&object(vec![
            ("id", text("t")),
            ("status", object(vec![("state", text("busy")), ("timestamp", text("2024-05-01T12:00:00Z"))])),
        ])),
        None
    );
    assert_eq!(
        Task::from_json(&object(vec![
            ("id", text("t")),
            ("status", status),
            ("artifacts", object(vec![])),
        ])),
        None
    );
}

#[test]
fn status_notice_on_the_wire() {
    let notice = TaskStatusUpdateEvent {
        id: "t".to_string(),
        status: TaskStatus {
            state: TaskState::Failed,
            message: None,
            timestamp: Timestamp::from_parts(0, 0).unwrap(),
        },
        final_status: true,
        metadata: None,
    };
    let wire = notice.to_json();
    assert_eq!(
        wire,
        object(vec![
            ("id", text("t")),
            (
                "status",
                object(vec![("state", text("failed")), ("timestamp", text("1970-01-01T00:00:00Z"))])
            ),
            ("final_status", Json::Bool(true)),
        ])
    );
    assert_eq!(TaskStatusUpdateEvent::from_json(&wire), Some(notice));
    let bare = object(vec![
        ("id", text("t")),
        (
            "status",
            object(vec![("state", text("working")), ("timestamp", text("1970-01-01T00:00:00Z"))]),
        ),
    ]);
    assert!(!TaskStatusUpdateEvent::from_json(&bare).unwrap().final_status);
    assert_eq!(TaskStatusUpdateEvent::from_json(&object(vec![("id", text("t"))])), None);
}

#[test]
fn artifact_notice_on_the_wire() {
    let notice = TaskArtifactUpdateEvent {
        id: "t".to_string(),
        artifact: Artifact {
            name: None,
            description: None,
            parts: vec![],
            index: 2,
            append: None,
            metadata: None,
            last_chunk: None,
        },
        metadata: Some(vec![("k".to_string(), Json::Null)]),
    };
    let wire = notice.to_json();
    assert_eq!(
        wire,
        object(vec![
            ("id", text("t")),
            ("artifact", object(vec![("parts", Json::Array(vec![])), ("index", Json::Int(2))])),
            ("metadata", object(vec![("k", Json::Null)])),
        ])
    );
    assert_eq!(TaskArtifactUpdateEvent::from_json(&wire), Some(notice));
    assert_eq!(TaskArtifactUpdateEvent::from_json(&object(vec![("id", text("t"))])), None);
}
