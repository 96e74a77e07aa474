//! Messages, statuses, artifacts and tasks on the wire.

use crate::json::{find_member, lemma_lookup_push, lookup, Json, JsonView};
use crate::time::Timestamp;
use crate::types::{
    Artifact, ArtifactView, Message, MessageView, Task, TaskArtifactUpdateEvent,
    TaskArtifactUpdateEventView, TaskState, TaskStatus, TaskStatusUpdateEvent,
    TaskStatusUpdateEventView, TaskStatusView, TaskView,
};
use crate::wire::fields::{
    array, bool_json, get_opt_bool, get_opt_i32, get_opt_object, get_opt_string, get_string,
    items_of, lemma_lookup_with_optional, members_of, no_members, object, object_json, opt_bool,
    opt_object, opt_string, optional_bool, optional_i32, optional_object, optional_string,
    optional_with, put, put_optional, required_string, required_with, string, string_json,
    with_optional,
};
use crate::wire::parts::{
    law_parts_round_trip, law_task_state_round_trip, parts_from_json, parts_json, parts_of_json,
    parts_to_json,
};
use vstd::prelude::*;

verus! {

impl MessageView {
    /// A message on the wire: an object with its role, its parts and, if it
    /// has any, its metadata.
    pub open spec fn to_json(self) -> JsonView {
        JsonView::Object(
            with_optional(
                Seq::<(Seq<char>, JsonView)>::empty().push(
                    ("role"@, JsonView::String(self.role)),
                ).push(("parts"@, parts_json(self.parts))),
                "metadata"@,
                object_json(self.metadata),
            ),
        )
    }

    /// The message that a document stands for.
    pub open spec fn from_json(j: JsonView) -> Option<MessageView> {
        match j {
            JsonView::Object(members) => match (
                required_string(members, "role"@),
                required_with(members, "parts"@, |v: JsonView| parts_from_json(v)),
                optional_object(members, "metadata"@),
            ) {
                (Some(role), Some(parts), Some(metadata)) => Some(
                    MessageView { role, parts, metadata },
                ),
                _ => None,
            },
            _ => None,
        }
    }
}

impl Message {
    /// Writes the message as a document.
    pub fn to_json(&self) -> (j: Json)
        ensures
            j@ == self@.to_json(),
    {
        let mut members = no_members();
        put(&mut members, "role", string(self.role.as_str()));
        put(&mut members, "parts", parts_to_json(&self.parts));
        put_optional(&mut members, "metadata", opt_object(&self.metadata));
        object(members)
    }

    /// Reads a message from a document.
    pub fn from_json(j: &Json) -> (r: Option<Message>)
        ensures
            r.deep_view() == MessageView::from_json(j@),
    {
        let members = match members_of(j) {
            Some(members) => members,
            None => return None,
        };
        let role = match get_string(members, "role") {
            Some(v) => v,
            None => return None,
        };
        let parts = match find_member(members, "parts") {
            Some(found) => match parts_of_json(found) {
                Some(parts) => parts,
                None => return None,
            },
            None => return None,
        };
        let metadata = match get_opt_object(members, "metadata") {
            Some(m) => m,
            None => return None,
        };
        Some(Message { role, parts, metadata })
    }
}

/// A message as a document, if there is one.
pub open spec fn message_json(message: Option<MessageView>) -> Option<JsonView> {
    match message {
        Some(m) => Some(m.to_json()),
        None => None,
    }
}

impl TaskStatusView {
    /// A status on the wire: an object with its state, its message if it
    /// has one, and its instant as text. There is none if the instant
    /// cannot be written.
    pub open spec fn to_json(self) -> Option<JsonView> {
        match self.timestamp.wire_text() {
            Some(text) => Some(
                JsonView::Object(
                    with_optional(
                        Seq::<(Seq<char>, JsonView)>::empty().push(
                            ("state"@, self.state.spec_to_json()),
                        ),
                        "message"@,
                        message_json(self.message),
                    ).push(("timestamp"@, JsonView::String(text))),
                ),
            ),
            None => None,
        }
    }

    /// The status that a document stands for.
    pub open spec fn from_json(j: JsonView) -> Option<TaskStatusView> {
        match j {
            JsonView::Object(members) => match (
                required_with(members, "state"@, |v: JsonView| TaskState::spec_from_json(v)),
                optional_with(members, "message"@, |v: JsonView| MessageView::from_json(v)),
                required_string(members, "timestamp"@),
            ) {
                (Some(state), Some(message), Some(text)) => match Timestamp::from_wire_text(text) {
                    Some(timestamp) => Some(TaskStatusView { state, message, timestamp }),
                    None => None,
                },
                _ => None,
            },
            _ => None,
        }
    }
}

impl TaskStatus {
    /// Writes the status as a document.
    pub fn to_json(&self) -> (j: Json)
        ensures
            Some(j@) == self@.to_json(),
    {
        let text = self.timestamp.to_rfc3339();
        let message = match &self.message {
            Some(m) => Some(m.to_json()),
            None => None,
        };
        let mut members = no_members();
        put(&mut members, "state", self.state.to_json());
        put_optional(&mut members, "message", message);
        put(&mut members, "timestamp", Json::String(text));
        object(members)
    }

    /// Reads a status from a document.
    pub fn from_json(j: &Json) -> (r: Option<TaskStatus>)
        ensures
            r.deep_view() == TaskStatusView::from_json(j@),
    {
        let members = match members_of(j) {
            Some(members) => members,
            None => return None,
        };
        let state = match find_member(members, "state") {
            Some(found) => match TaskState::from_json(found) {
                Some(state) => state,
                None => return None,
            },
            None => return None,
        };
        let message = match find_member(members, "message") {
            None => None,
            Some(Json::Null) => None,
            Some(found) => match Message::from_json(found) {
                Some(m) => Some(m),
                None => return None,
            },
        };
        let text = match get_string(members, "timestamp") {
            Some(text) => text,
            None => return None,
        };
        let timestamp = match Timestamp::parse_rfc3339(text.as_str()) {
            Some(t) => t,
            None => return None,
        };
        Some(TaskStatus { state, message, timestamp })
    }
}

/// The index of an artifact as read from `found`: zero if none is given.
pub open spec fn index_or_zero(found: Option<i32>) -> i32 {
    match found {
        Some(n) => n,
        None => 0i32,
    }
}

impl ArtifactView {
    /// An artifact on the wire: an object with its parts and its index,
    /// and with those of `name`, `description`, `append`, `metadata` and
    /// `lastChunk` that the artifact has.
    pub open spec fn to_json(self) -> JsonView {
        JsonView::Object(
            with_optional(
                with_optional(
                    with_optional(
                        with_optional(
                            with_optional(
                                Seq::<(Seq<char>, JsonView)>::empty(),
                                "name"@,
                                string_json(self.name),
                            ),
                            "description"@,
                            string_json(self.description),
                        ).push(("parts"@, parts_json(self.parts))).push(
                            ("index"@, JsonView::Integer(self.index as int)),
                        ),
                        "append"@,
                        bool_json(self.append),
                    ),
                    "metadata"@,
                    object_json(self.metadata),
                ),
                "lastChunk"@,
                bool_json(self.last_chunk),
            ),
        )
    }

    /// The artifact that a document stands for. Its index is zero unless
    /// the object says otherwise.
    pub open spec fn from_json(j: JsonView) -> Option<ArtifactView> {
        match j {
            JsonView::Object(members) => match (
                optional_string(members, "name"@),
                optional_string(members, "description"@),
                required_with(members, "parts"@, |v: JsonView| parts_from_json(v)),
                optional_i32(members, "index"@),
                optional_bool(members, "append"@),
                optional_object(members, "metadata"@),
                optional_bool(members, "lastChunk"@),
            ) {
                (
                    Some(name),
                    Some(description),
                    Some(parts),
                    Some(index),
                    Some(append),
                    Some(metadata),
                    Some(last_chunk),
                ) => Some(
                    ArtifactView {
                        name,
                        description,
                        parts,
                        index: index_or_zero(index),
                        append,
                        metadata,
                        last_chunk,
                    },
                ),
                _ => None,
            },
            _ => None,
        }
    }
}

impl Artifact {
    /// Writes the artifact as a document.
    pub fn to_json(&self) -> (j: Json)
        ensures
            j@ == self@.to_json(),
    {
        let mut members = no_members();
        put_optional(&mut members, "name", opt_string(&self.name));
        put_optional(&mut members, "description", opt_string(&self.description));
        put(&mut members, "parts", parts_to_json(&self.parts));
        put(&mut members, "index", Json::Int(self.index as i64));
        put_optional(&mut members, "append", opt_bool(self.append));
        put_optional(&mut members, "metadata", opt_object(&self.metadata));
        put_optional(&mut members, "lastChunk", opt_bool(self.last_chunk));
        object(members)
    }

    /// Reads an artifact from a document.
    pub fn from_json(j: &Json) -> (r: Option<Artifact>)
        ensures
            r.deep_view() == ArtifactView::from_json(j@),
    {
        let members = match members_of(j) {
            Some(members) => members,
            None => return None,
        };
        let name = match get_opt_string(members, "name") {
            Some(v) => v,
            None => return None,
        };
        let description = match get_opt_string(members, "description") {
            Some(v) => v,
            None => return None,
        };
        let parts = match find_member(members, "parts") {
            Some(found) => match parts_of_json(found) {
                Some(parts) => parts,
                None => return None,
            },
            None => return None,
        };
        let index = match get_opt_i32(members, "index") {
            Some(Some(n)) => n,
            Some(None) => 0,
            None => return None,
        };
        let append = match get_opt_bool(members, "append") {
            Some(v) => v,
            None => return None,
        };
        let metadata = match get_opt_object(members, "metadata") {
            Some(m) => m,
            None => return None,
        };
        let last_chunk = match get_opt_bool(members, "lastChunk") {
            Some(v) => v,
            None => return None,
        };
        Some(Artifact { name, description, parts, index, append, metadata, last_chunk })
    }
}

/// A list of artifacts on the wire, if there is one: the array of the
/// artifacts.
pub open spec fn artifacts_json(artifacts: Option<Seq<ArtifactView>>) -> Option<JsonView> {
    match artifacts {
        Some(list) => Some(JsonView::Array(Seq::new(list.len(), |i: int| list[i].to_json()))),
        None => None,
    }
}

/// The list of artifacts that a document stands for.
pub open spec fn artifacts_from_json(j: JsonView) -> Option<Seq<ArtifactView>> {
    match j {
        JsonView::Array(items) => if forall|i: int|
            0 <= i < items.len() ==> (#[trigger] ArtifactView::from_json(items[i])) is Some {
            Some(Seq::new(items.len(), |i: int| ArtifactView::from_json(items[i])->Some_0))
        } else {
            None
        },
        _ => None,
    }
}

fn artifacts_to_json(artifacts: &Option<Vec<Artifact>>) -> (j: Option<Json>)
    ensures
        j.deep_view() == artifacts_json(artifacts.deep_view()),
{
    let list = match artifacts {
        Some(list) => list,
        None => return None,
    };
    let mut items: Vec<Json> = Vec::new();
    let mut i: usize = 0;
    while i < list.len()
        invariant
            i <= list.len(),
            items@.len() == i,
            forall|k: int| 0 <= k < i ==> items@[k]@ == list@[k]@.to_json(),
        decreases list.len() - i,
    {
        items.push(list[i].to_json());
        i += 1;
    }
    assert(items.deep_view() =~= Seq::new(
        list.deep_view().len(),
        |i: int| list.deep_view()[i].to_json(),
    ));
    Some(array(items))
}

fn artifacts_of_json(j: &Json) -> (r: Option<Vec<Artifact>>)
    ensures
        r.deep_view() == artifacts_from_json(j@),
{
    let items = match items_of(j) {
        Some(items) => items,
        None => return None,
    };
    let mut list: Vec<Artifact> = Vec::new();
    let mut i: usize = 0;
    while i < items.len()
        invariant
            i <= items.len(),
            list@.len() == i,
            j@ == JsonView::Array(items.deep_view()),
            forall|k: int|
                0 <= k < i ==> (#[trigger] ArtifactView::from_json(items.deep_view()[k])) == Some(
                    list@[k]@,
                ),
        decreases items.len() - i,
    {
        match Artifact::from_json(&items[i]) {
            Some(artifact) => list.push(artifact),
            None => {
                assert(ArtifactView::from_json(items.deep_view()[i as int]) is None);
                return None;
            },
        }
        i += 1;
    }
    assert(list.deep_view() =~= Seq::new(
        items.deep_view().len(),
        |i: int| ArtifactView::from_json(items.deep_view()[i])->Some_0,
    ));
    Some(list)
}

impl TaskView {
    /// A task on the wire: an object with its id, its session id if it has
    /// one, its status, and its artifacts and metadata if it has any. There
    /// is none if the status cannot be written.
    pub open spec fn to_json(self) -> Option<JsonView> {
        match self.status.to_json() {
            Some(status) => Some(
                JsonView::Object(
                    with_optional(
                        with_optional(
                            with_optional(
                                Seq::<(Seq<char>, JsonView)>::empty().push(
                                    ("id"@, JsonView::String(self.id)),
                                ),
                                "sessionId"@,
                                string_json(self.session_id),
                            ).push(("status"@, status)),
                            "artifacts"@,
                            artifacts_json(self.artifacts),
                        ),
                        "metadata"@,
                        object_json(self.metadata),
                    ),
                ),
            ),
            None => None,
        }
    }

    /// The task that a document stands for.
    pub open spec fn from_json(j: JsonView) -> Option<TaskView> {
        match j {
            JsonView::Object(members) => match (
                required_string(members, "id"@),
                optional_string(members, "sessionId"@),
                required_with(members, "status"@, |v: JsonView| TaskStatusView::from_json(v)),
                optional_with(members, "artifacts"@, |v: JsonView| artifacts_from_json(v)),
                optional_object(members, "metadata"@),
            ) {
                (Some(id), Some(session_id), Some(status), Some(artifacts), Some(metadata)) => Some(
                    TaskView { id, session_id, status, artifacts, metadata },
                ),
                _ => None,
            },
            _ => None,
        }
    }
}

impl Task {
    /// Writes the task as a document.
    pub fn to_json(&self) -> (j: Json)
        ensures
            Some(j@) == self@.to_json(),
    {
        let status = self.status.to_json();
        let mut members = no_members();
        put(&mut members, "id", string(self.id.as_str()));
        put_optional(&mut members, "sessionId", opt_string(&self.session_id));
        put(&mut members, "status", status);
        put_optional(&mut members, "artifacts", artifacts_to_json(&self.artifacts));
        put_optional(&mut members, "metadata", opt_object(&self.metadata));
        object(members)
    }

    /// Reads a task from a document.
    pub fn from_json(j: &Json) -> (r: Option<Task>)
        ensures
            r.deep_view() == TaskView::from_json(j@),
    {
        let members = match members_of(j) {
            Some(members) => members,
            None => return None,
        };
        let id = match get_string(members, "id") {
            Some(v) => v,
            None => return None,
        };
        let session_id = match get_opt_string(members, "sessionId") {
            Some(v) => v,
            None => return None,
        };
        let status = match find_member(members, "status") {
            Some(found) => match TaskStatus::from_json(found) {
                Some(status) => status,
                None => return None,
            },
            None => return None,
        };
        let artifacts = match find_member(members, "artifacts") {
            None => None,
            Some(Json::Null) => None,
            Some(found) => match artifacts_of_json(found) {
                Some(list) => Some(list),
                None => return None,
            },
        };
        let metadata = match get_opt_object(members, "metadata") {
            Some(m) => m,
            None => return None,
        };
        Some(Task { id, session_id, status, artifacts, metadata })
    }
}

/// A message that was written is the message that is read.
pub proof fn law_message_round_trip(message: MessageView)
    ensures
        MessageView::from_json(message.to_json()) == Some(message),
{
    reveal_strlit("role");
    reveal_strlit("parts");
    reveal_strlit("metadata");
    assert("role"@.len() == 4 && "parts"@.len() == 5 && "metadata"@.len() == 8);
    let m0 = Seq::<(Seq<char>, JsonView)>::empty();
    let m1 = m0.push(("role"@, JsonView::String(message.role)));
    let m2 = m1.push(("parts"@, parts_json(message.parts)));
    let m3 = with_optional(m2, "metadata"@, object_json(message.metadata));
    assert forall|key: Seq<char>|
        lookup(m3, key) == if key == "role"@ {
            Some(JsonView::String(message.role))
        } else if key == "parts"@ {
            Some(parts_json(message.parts))
        } else if key == "metadata"@ {
            object_json(message.metadata)
        } else {
            None
        } by {
        lemma_lookup_push(m0, "role"@, JsonView::String(message.role), key);
        lemma_lookup_push(m1, "parts"@, parts_json(message.parts), key);
        lemma_lookup_with_optional(m2, "metadata"@, object_json(message.metadata), key);
    }
    law_parts_round_trip(message.parts);
    assert(required_string(m3, "role"@) == Some(message.role));
    assert(optional_object(m3, "metadata"@) == Some(message.metadata));
}

/// An artifact that was written is the artifact that is read.
pub proof fn law_artifact_round_trip(artifact: ArtifactView)
    ensures
        ArtifactView::from_json(artifact.to_json()) == Some(artifact),
{
    reveal_strlit("name");
    reveal_strlit("description");
    reveal_strlit("parts");
    reveal_strlit("index");
    reveal_strlit("append");
    reveal_strlit("metadata");
    reveal_strlit("lastChunk");
    assert("name"@.len() == 4 && "description"@.len() == 11 && "parts"@.len() == 5
        && "index"@.len() == 5 && "append"@.len() == 6 && "metadata"@.len() == 8
        && "lastChunk"@.len() == 9);
    assert("parts"@[0] != "index"@[0]);
    let index = JsonView::Integer(artifact.index as int);
    let m0 = Seq::<(Seq<char>, JsonView)>::empty();
    let m1 = with_optional(m0, "name"@, string_json(artifact.name));
    let m2 = with_optional(m1, "description"@, string_json(artifact.description));
    let m3 = m2.push(("parts"@, parts_json(artifact.parts)));
    let m4 = m3.push(("index"@, index));
    let m5 = with_optional(m4, "append"@, bool_json(artifact.append));
    let m6 = with_optional(m5, "metadata"@, object_json(artifact.metadata));
    let m7 = with_optional(m6, "lastChunk"@, bool_json(artifact.last_chunk));
    assert forall|key: Seq<char>|
        lookup(m7, key) == if key == "name"@ {
            string_json(artifact.name)
        } else if key == "description"@ {
            string_json(artifact.description)
        } else if key == "parts"@ {
            Some(parts_json(artifact.parts))
        } else if key == "index"@ {
            Some(index)
        } else if key == "append"@ {
            bool_json(artifact.append)
        } else if key == "metadata"@ {
            object_json(artifact.metadata)
        } else if key == "lastChunk"@ {
            bool_json(artifact.last_chunk)
        } else {
            None
        } by {
        lemma_lookup_with_optional(m0, "name"@, string_json(artifact.name), key);
        lemma_lookup_with_optional(m1, "description"@, string_json(artifact.description), key);
        lemma_lookup_push(m2, "parts"@, parts_json(artifact.parts), key);
        lemma_lookup_push(m3, "index"@, index, key);
        lemma_lookup_with_optional(m4, "append"@, bool_json(artifact.append), key);
        lemma_lookup_with_optional(m5, "metadata"@, object_json(artifact.metadata), key);
        lemma_lookup_with_optional(m6, "lastChunk"@, bool_json(artifact.last_chunk), key);
    }
    law_parts_round_trip(artifact.parts);
    assert(optional_string(m7, "name"@) == Some(artifact.name));
    assert(optional_string(m7, "description"@) == Some(artifact.description));
    assert(optional_i32(m7, "index"@) == Some(Some(artifact.index)));
    assert(optional_bool(m7, "append"@) == Some(artifact.append));
    assert(optional_object(m7, "metadata"@) == Some(artifact.metadata));
    assert(optional_bool(m7, "lastChunk"@) == Some(artifact.last_chunk));
}

/// A status that was written is the status that is read, if its instant
/// is read back from its text.
pub proof fn law_status_round_trip(status: TaskStatusView)
    requires
        status.timestamp.reads_back(),
    ensures
        status.to_json() matches Some(j) && TaskStatusView::from_json(j) == Some(status),
{
    reveal_strlit("state");
    reveal_strlit("message");
    reveal_strlit("timestamp");
    assert("state"@.len() == 5 && "message"@.len() == 7 && "timestamp"@.len() == 9);
    let text = status.timestamp.wire_text()->Some_0;
    let m0 = Seq::<(Seq<char>, JsonView)>::empty();
    let m1 = m0.push(("state"@, status.state.spec_to_json()));
    let m2 = with_optional(m1, "message"@, message_json(status.message));
    let m3 = m2.push(("timestamp"@, JsonView::String(text)));
    assert forall|key: Seq<char>|
        lookup(m3, key) == if key == "state"@ {
            Some(status.state.spec_to_json())
        } else if key == "message"@ {
            message_json(status.message)
        } else if key == "timestamp"@ {
            Some(JsonView::String(text))
        } else {
            None
        } by {
        lemma_lookup_push(m0, "state"@, status.state.spec_to_json(), key);
        lemma_lookup_with_optional(m1, "message"@, message_json(status.message), key);
        lemma_lookup_push(m2, "timestamp"@, JsonView::String(text), key);
    }
    law_task_state_round_trip(status.state);
    if status.message is Some {
        law_message_round_trip(status.message->Some_0);
    }
    assert(required_string(m3, "timestamp"@) == Some(text));
    assert(optional_with(m3, "message"@, |v: JsonView| MessageView::from_json(v)) == Some(
        status.message,
    ));
    assert(required_with(m3, "state"@, |v: JsonView| TaskState::spec_from_json(v)) == Some(
        status.state,
    ));
}

/// A task that was written is the task that is read, if the instant of its
/// status is read back from its text.
pub proof fn law_task_round_trip(task: TaskView)
    requires
        task.status.timestamp.reads_back(),
    ensures
        task.to_json() matches Some(j) && TaskView::from_json(j) == Some(task),
{
    reveal_strlit("id");
    reveal_strlit("sessionId");
    reveal_strlit("status");
    reveal_strlit("artifacts");
    reveal_strlit("metadata");
    assert("id"@.len() == 2 && "sessionId"@.len() == 9 && "status"@.len() == 6
        && "artifacts"@.len() == 9 && "metadata"@.len() == 8);
    assert("sessionId"@[0] != "artifacts"@[0]);
    law_status_round_trip(task.status);
    let status = task.status.to_json()->Some_0;
    let m0 = Seq::<(Seq<char>, JsonView)>::empty();
    let m1 = m0.push(("id"@, JsonView::String(task.id)));
    let m2 = with_optional(m1, "sessionId"@, string_json(task.session_id));
    let m3 = m2.push(("status"@, status));
    let m4 = with_optional(m3, "artifacts"@, artifacts_json(task.artifacts));
    let m5 = with_optional(m4, "metadata"@, object_json(task.metadata));
    assert forall|key: Seq<char>|
        lookup(m5, key) == if key == "id"@ {
            Some(JsonView::String(task.id))
        } else if key == "sessionId"@ {
            string_json(task.session_id)
        } else if key == "status"@ {
            Some(status)
        } else if key == "artifacts"@ {
            artifacts_json(task.artifacts)
        } else if key == "metadata"@ {
            object_json(task.metadata)
        } else {
            None
        } by {
        lemma_lookup_push(m0, "id"@, JsonView::String(task.id), key);
        lemma_lookup_with_optional(m1, "sessionId"@, string_json(task.session_id), key);
        lemma_lookup_push(m2, "status"@, status, key);
        lemma_lookup_with_optional(m3, "artifacts"@, artifacts_json(task.artifacts), key);
        lemma_lookup_with_optional(m4, "metadata"@, object_json(task.metadata), key);
    }
    if task.artifacts is Some {
        let list = task.artifacts->Some_0;
        let items = Seq::new(list.len(), |i: int| list[i].to_json());
        assert forall|i: int| 0 <= i < items.len() implies (#[trigger] ArtifactView::from_json(
            items[i],
        )) == Some(list[i]) by {
            law_artifact_round_trip(list[i]);
        }
        assert(Seq::new(items.len(), |i: int| ArtifactView::from_json(items[i])->Some_0)
            =~= list);
        assert(artifacts_from_json(JsonView::Array(items)) == Some(list));
    }
    assert(required_string(m5, "id"@) == Some(task.id));
    assert(optional_string(m5, "sessionId"@) == Some(task.session_id));
    assert(optional_object(m5, "metadata"@) == Some(task.metadata));
    assert(required_with(m5, "status"@, |v: JsonView| TaskStatusView::from_json(v)) == Some(
        task.status,
    ));
    assert(optional_with(m5, "artifacts"@, |v: JsonView| artifacts_from_json(v)) == Some(
        task.artifacts,
    ));
}

/// Whether a notice is the last one for its task, as read from `found`: it
/// is not unless the notice says so.
pub open spec fn flag_or_false(found: Option<bool>) -> bool {
    match found {
        Some(flag) => flag,
        None => false,
    }
}

impl TaskStatusUpdateEventView {
    /// The notice on the wire: an object with the id of the task, its
    /// status, whether the status is final and, if there is any, the
    /// metadata. There is none if the status cannot be written.
    pub open spec fn to_json(self) -> Option<JsonView> {
        match self.status.to_json() {
            Some(status) => Some(
                JsonView::Object(
                    with_optional(
                        Seq::<(Seq<char>, JsonView)>::empty().push(
                            ("id"@, JsonView::String(self.id)),
                        ).push(("status"@, status)).push(
                            ("final_status"@, JsonView::Bool(self.final_status)),
                        ),
                        "metadata"@,
                        object_json(self.metadata),
                    ),
                ),
            ),
            None => None,
        }
    }

    /// The notice that a document stands for.
    pub open spec fn from_json(j: JsonView) -> Option<TaskStatusUpdateEventView> {
        match j {
            JsonView::Object(members) => match (
                required_string(members, "id"@),
                required_with(members, "status"@, |v: JsonView| TaskStatusView::from_json(v)),
                optional_bool(members, "final_status"@),
                optional_object(members, "metadata"@),
            ) {
                (Some(id), Some(status), Some(final_status), Some(metadata)) => Some(
                    TaskStatusUpdateEventView {
                        id,
                        status,
                        final_status: flag_or_false(final_status),
                        metadata,
                    },
                ),
                _ => None,
            },
            _ => None,
        }
    }
}

impl TaskStatusUpdateEvent {
    /// Writes the notice as a document.
    pub fn to_json(&self) -> (j: Json)
        ensures
            Some(j@) == self@.to_json(),
    {
        let status = self.status.to_json();
        let mut members = no_members();
        put(&mut members, "id", string(self.id.as_str()));
        put(&mut members, "status", status);
        put(&mut members, "final_status", Json::Bool(self.final_status));
        put_optional(&mut members, "metadata", opt_object(&self.metadata));
        object(members)
    }

    /// Reads a notice from a document.
    pub fn from_json(j: &Json) -> (r: Option<TaskStatusUpdateEvent>)
        ensures
            r.deep_view() == TaskStatusUpdateEventView::from_json(j@),
    {
        let members = match members_of(j) {
            Some(members) => members,
            None => return None,
        };
        let id = match get_string(members, "id") {
            Some(v) => v,
            None => return None,
        };
        let status = match find_member(members, "status") {
            Some(found) => match TaskStatus::from_json(found) {
                Some(status) => status,
                None => return None,
            },
            None => return None,
        };
        let final_status = match get_opt_bool(members, "final_status") {
            Some(Some(flag)) => flag,
            Some(None) => false,
            None => return None,
        };
        let metadata = match get_opt_object(members, "metadata") {
            Some(m) => m,
            None => return None,
        };
        Some(TaskStatusUpdateEvent { id, status, final_status, metadata })
    }
}

impl TaskArtifactUpdateEventView {
    /// The notice on the wire: an object with the id of the task, the
    /// artifact and, if there is any, the metadata.
    pub open spec fn to_json(self) -> JsonView {
        JsonView::Object(
            with_optional(
                Seq::<(Seq<char>, JsonView)>::empty().push(
                    ("id"@, JsonView::String(self.id)),
                ).push(("artifact"@, self.artifact.to_json())),
                "metadata"@,
                object_json(self.metadata),
            ),
        )
    }

    /// The notice that a document stands for.
    pub open spec fn from_json(j: JsonView) -> Option<TaskArtifactUpdateEventView> {
        match j {
            JsonView::Object(members) => match (
                required_string(members, "id"@),
                required_with(members, "artifact"@, |v: JsonView| ArtifactView::from_json(v)),
                optional_object(members, "metadata"@),
            ) {
                (Some(id), Some(artifact), Some(metadata)) => Some(
                    TaskArtifactUpdateEventView { id, artifact, metadata },
                ),
                _ => None,
            },
            _ => None,
        }
    }
}

impl TaskArtifactUpdateEvent {
    /// Writes the notice as a document.
    pub fn to_json(&self) -> (j: Json)
        ensures
            j@ == self@.to_json(),
    {
        let mut members = no_members();
        put(&mut members, "id", string(self.id.as_str()));
        put(&mut members, "artifact", self.artifact.to_json());
        put_optional(&mut members, "metadata", opt_object(&self.metadata));
        object(members)
    }

    /// Reads a notice from a document.
    pub fn from_json(j: &Json) -> (r: Option<TaskArtifactUpdateEvent>)
        ensures
            r.deep_view() == TaskArtifactUpdateEventView::from_json(j@),
    {
        let members = match members_of(j) {
            Some(members) => members,
            None => return None,
        };
        let id = match get_string(members, "id") {
            Some(v) => v,
            None => return None,
        };
        let artifact = match find_member(members, "artifact") {
            Some(found) => match Artifact::from_json(found) {
                Some(artifact) => artifact,
                None => return None,
            },
            None => return None,
        };
        let metadata = match get_opt_object(members, "metadata") {
            Some(m) => m,
            None => return None,
        };
        Some(TaskArtifactUpdateEvent { id, artifact, metadata })
    }
}

} // verus!
