//! Task states and parts on the wire. A part carries no tag that could
//! be relied on: the members that are there tell whether it holds text, a
//! file or data.

use crate::json::{
    clone_members, find_member, lemma_lookup_push, lookup, str_eq, Json, JsonView, MembersView,
};
use crate::types::{
    DataPart, DataPartView, FileContent, FileContentView, FilePart, FilePartView, Part, PartView,
    TaskState, TextPart, TextPartView,
};
use crate::wire::fields::{
    array, get_object, get_opt_object, get_opt_string, get_string, items_of,
    lemma_lookup_with_optional, members_of, no_members, object, object_json, opt_object,
    opt_string, optional_object, optional_string, put, put_optional, required_object,
    required_string, string, string_json, with_optional,
};
use vstd::prelude::*;

verus! {

impl TaskState {
    /// The name of the state on the wire.
    pub open spec fn wire_name(self) -> Seq<char> {
        match self {
            TaskState::Submitted => "submitted"@,
            TaskState::Working => "working"@,
            TaskState::InputRequired => "input-required"@,
            TaskState::Completed => "completed"@,
            TaskState::Canceled => "canceled"@,
            TaskState::Failed => "failed"@,
            TaskState::Rejected => "rejected"@,
            TaskState::Unknown => "unknown"@,
        }
    }

    /// The state that a name on the wire stands for.
    pub open spec fn from_wire_name(name: Seq<char>) -> Option<TaskState> {
        if name == "submitted"@ {
            Some(TaskState::Submitted)
        } else if name == "working"@ {
            Some(TaskState::Working)
        } else if name == "input-required"@ {
            Some(TaskState::InputRequired)
        } else if name == "completed"@ {
            Some(TaskState::Completed)
        } else if name == "canceled"@ {
            Some(TaskState::Canceled)
        } else if name == "failed"@ {
            Some(TaskState::Failed)
        } else if name == "rejected"@ {
            Some(TaskState::Rejected)
        } else if name == "unknown"@ {
            Some(TaskState::Unknown)
        } else {
            None
        }
    }

    /// The state on the wire: its name as a string.
    pub open spec fn spec_to_json(self) -> JsonView {
        JsonView::String(self.wire_name())
    }

    /// The state that a document stands for.
    pub open spec fn spec_from_json(j: JsonView) -> Option<TaskState> {
        match j {
            JsonView::String(name) => TaskState::from_wire_name(name),
            _ => None,
        }
    }

    /// Writes the state as a document.
    pub fn to_json(&self) -> (j: Json)
        ensures
            j@ == self.spec_to_json(),
    {
        let name = match self {
            TaskState::Submitted => "submitted",
            TaskState::Working => "working",
            TaskState::InputRequired => "input-required",
            TaskState::Completed => "completed",
            TaskState::Canceled => "canceled",
            TaskState::Failed => "failed",
            TaskState::Rejected => "rejected",
            TaskState::Unknown => "unknown",
        };
        Json::String(String::from_str(name))
    }

    /// Reads a state from a document.
    pub fn from_json(j: &Json) -> (r: Option<TaskState>)
        ensures
            r == TaskState::spec_from_json(j@),
    {
        match j {
            Json::String(name) => {
                let name = name.as_str();
                if str_eq(name, "submitted") {
                    Some(TaskState::Submitted)
                } else if str_eq(name, "working") {
                    Some(TaskState::Working)
                } else if str_eq(name, "input-required") {
                    Some(TaskState::InputRequired)
                } else if str_eq(name, "completed") {
                    Some(TaskState::Completed)
                } else if str_eq(name, "canceled") {
                    Some(TaskState::Canceled)
                } else if str_eq(name, "failed") {
                    Some(TaskState::Failed)
                } else if str_eq(name, "rejected") {
                    Some(TaskState::Rejected)
                } else if str_eq(name, "unknown") {
                    Some(TaskState::Unknown)
                } else {
                    None
                }
            },
            _ => None,
        }
    }
}

/// The names of the states on the wire differ from one another, so that a
/// state that was written is the state that is read.
pub proof fn law_task_state_round_trip(state: TaskState)
    ensures
        TaskState::spec_from_json(state.spec_to_json()) == Some(state),
{
    reveal_strlit("submitted");
    reveal_strlit("working");
    reveal_strlit("input-required");
    reveal_strlit("completed");
    reveal_strlit("canceled");
    reveal_strlit("failed");
    reveal_strlit("rejected");
    reveal_strlit("unknown");
    assert("submitted"@[0] != "completed"@[0]);
    assert("rejected"@[0] != "canceled"@[0]);
    assert("submitted"@.len() == 9);
    assert("completed"@.len() == 9);
    assert("canceled"@.len() == 8);
    assert("rejected"@.len() == 8);
    assert("working"@.len() == 7);
    assert("unknown"@.len() == 7);
    assert("working"@[0] != "unknown"@[0]);
    assert("failed"@.len() == 6);
    assert("input-required"@.len() == 14);
}

/// The type of a part as read from `found`, or `default` if none is given.
pub open spec fn type_or(found: Option<Seq<char>>, default: Seq<char>) -> Seq<char> {
    match found {
        Some(t) => t,
        None => default,
    }
}

fn part_type_or(found: Option<String>, default: &str) -> (r: String)
    ensures
        r@ == type_or(found.deep_view(), default@),
{
    match found {
        Some(t) => t,
        None => String::from_str(default),
    }
}

impl TextPartView {
    /// A text part on the wire: an object with its type, its text and, if
    /// it has any, its metadata.
    pub open spec fn to_json(self) -> JsonView {
        JsonView::Object(
            with_optional(
                Seq::<(Seq<char>, JsonView)>::empty().push(
                    ("type"@, JsonView::String(self.part_type)),
                ).push(("text"@, JsonView::String(self.text))),
                "metadata"@,
                object_json(self.metadata),
            ),
        )
    }

    /// The text part that a document stands for: an object with a string
    /// under `text`. Its type is `text` unless the object says otherwise.
    pub open spec fn from_json(j: JsonView) -> Option<TextPartView> {
        match j {
            JsonView::Object(members) => match (
                optional_string(members, "type"@),
                required_string(members, "text"@),
                optional_object(members, "metadata"@),
            ) {
                (Some(part_type), Some(text), Some(metadata)) => Some(
                    TextPartView { part_type: type_or(part_type, "text"@), text, metadata },
                ),
                _ => None,
            },
            _ => None,
        }
    }
}

impl TextPart {
    /// Writes the part as a document.
    pub fn to_json(&self) -> (j: Json)
        ensures
            j@ == self@.to_json(),
    {
        let mut members = no_members();
        put(&mut members, "type", string(self.part_type.as_str()));
        put(&mut members, "text", string(self.text.as_str()));
        put_optional(&mut members, "metadata", opt_object(&self.metadata));
        object(members)
    }

    /// Reads a text part from a document.
    pub fn from_json(j: &Json) -> (r: Option<TextPart>)
        ensures
            r.deep_view() == TextPartView::from_json(j@),
    {
        let members = match members_of(j) {
            Some(members) => members,
            None => return None,
        };
        let part_type = match get_opt_string(members, "type") {
            Some(t) => t,
            None => return None,
        };
        let text = match get_string(members, "text") {
            Some(t) => t,
            None => return None,
        };
        let metadata = match get_opt_object(members, "metadata") {
            Some(m) => m,
            None => return None,
        };
        Some(TextPart { part_type: part_type_or(part_type, "text"), text, metadata })
    }
}

impl FileContentView {
    /// The content of a file on the wire: an object with those of `name`,
    /// `mimeType`, `bytes` and `uri` that the content has.
    pub open spec fn to_json(self) -> JsonView {
        JsonView::Object(
            with_optional(
                with_optional(
                    with_optional(
                        with_optional(
                            Seq::<(Seq<char>, JsonView)>::empty(),
                            "name"@,
                            string_json(self.name),
                        ),
                        "mimeType"@,
                        string_json(self.mime_type),
                    ),
                    "bytes"@,
                    string_json(self.bytes),
                ),
                "uri"@,
                string_json(self.uri),
            ),
        )
    }

    /// The content of a file that a document stands for.
    pub open spec fn from_json(j: JsonView) -> Option<FileContentView> {
        match j {
            JsonView::Object(members) => match (
                optional_string(members, "name"@),
                optional_string(members, "mimeType"@),
                optional_string(members, "bytes"@),
                optional_string(members, "uri"@),
            ) {
                (Some(name), Some(mime_type), Some(bytes), Some(uri)) => Some(
                    FileContentView { name, mime_type, bytes, uri },
                ),
                _ => None,
            },
            _ => None,
        }
    }
}

impl FileContent {
    /// Writes the content as a document.
    pub fn to_json(&self) -> (j: Json)
        ensures
            j@ == self@.to_json(),
    {
        let mut members = no_members();
        put_optional(&mut members, "name", opt_string(&self.name));
        put_optional(&mut members, "mimeType", opt_string(&self.mime_type));
        put_optional(&mut members, "bytes", opt_string(&self.bytes));
        put_optional(&mut members, "uri", opt_string(&self.uri));
        object(members)
    }

    /// Reads the content of a file from a document.
    pub fn from_json(j: &Json) -> (r: Option<FileContent>)
        ensures
            r.deep_view() == FileContentView::from_json(j@),
    {
        let members = match members_of(j) {
            Some(members) => members,
            None => return None,
        };
        let name = match get_opt_string(members, "name") {
            Some(v) => v,
            None => return None,
        };
        let mime_type = match get_opt_string(members, "mimeType") {
            Some(v) => v,
            None => return None,
        };
        let bytes = match get_opt_string(members, "bytes") {
            Some(v) => v,
            None => return None,
        };
        let uri = match get_opt_string(members, "uri") {
            Some(v) => v,
            None => return None,
        };
        Some(FileContent { name, mime_type, bytes, uri })
    }
}

impl FilePartView {
    /// A file part on the wire: an object with its type, its file and, if
    /// it has any, its metadata.
    pub open spec fn to_json(self) -> JsonView {
        JsonView::Object(
            with_optional(
                Seq::<(Seq<char>, JsonView)>::empty().push(
                    ("type"@, JsonView::String(self.part_type)),
                ).push(("file"@, self.file.to_json())),
                "metadata"@,
                object_json(self.metadata),
            ),
        )
    }

    /// The file part that a document stands for: an object with the content
    /// of a file under `file`. Its type is `file` unless the object says
    /// otherwise.
    pub open spec fn from_json(j: JsonView) -> Option<FilePartView> {
        match j {
            JsonView::Object(members) => match (
                optional_string(members, "type"@),
                lookup(members, "file"@),
                optional_object(members, "metadata"@),
            ) {
                (Some(part_type), Some(content), Some(metadata)) => match FileContentView::from_json(
                    content,
                ) {
                    Some(file) => Some(
                        FilePartView { part_type: type_or(part_type, "file"@), file, metadata },
                    ),
                    None => None,
                },
                _ => None,
            },
            _ => None,
        }
    }
}

impl FilePart {
    /// Writes the part as a document.
    pub fn to_json(&self) -> (j: Json)
        ensures
            j@ == self@.to_json(),
    {
        let mut members = no_members();
        put(&mut members, "type", string(self.part_type.as_str()));
        put(&mut members, "file", self.file.to_json());
        put_optional(&mut members, "metadata", opt_object(&self.metadata));
        object(members)
    }

    /// Reads a file part from a document.
    pub fn from_json(j: &Json) -> (r: Option<FilePart>)
        ensures
            r.deep_view() == FilePartView::from_json(j@),
    {
        let members = match members_of(j) {
            Some(members) => members,
            None => return None,
        };
        let part_type = match get_opt_string(members, "type") {
            Some(t) => t,
            None => return None,
        };
        let file = match find_member(members, "file") {
            Some(content) => match FileContent::from_json(content) {
                Some(file) => file,
                None => return None,
            },
            None => return None,
        };
        let metadata = match get_opt_object(members, "metadata") {
            Some(m) => m,
            None => return None,
        };
        Some(FilePart { part_type: part_type_or(part_type, "file"), file, metadata })
    }
}

impl DataPartView {
    /// A data part on the wire: an object with its type, its data as an
    /// object and, if it has any, its metadata.
    pub open spec fn to_json(self) -> JsonView {
        JsonView::Object(
            with_optional(
                Seq::<(Seq<char>, JsonView)>::empty().push(
                    ("type"@, JsonView::String(self.part_type)),
                ).push(("data"@, JsonView::Object(self.data))),
                "metadata"@,
                object_json(self.metadata),
            ),
        )
    }

    /// The data part that a document stands for: an object with an object
    /// under `data`. Its type is `data` unless the object says otherwise.
    pub open spec fn from_json(j: JsonView) -> Option<DataPartView> {
        match j {
            JsonView::Object(members) => match (
                optional_string(members, "type"@),
                required_object(members, "data"@),
                optional_object(members, "metadata"@),
            ) {
                (Some(part_type), Some(data), Some(metadata)) => Some(
                    DataPartView { part_type: type_or(part_type, "data"@), data, metadata },
                ),
                _ => None,
            },
            _ => None,
        }
    }
}

impl DataPart {
    /// Writes the part as a document.
    pub fn to_json(&self) -> (j: Json)
        ensures
            j@ == self@.to_json(),
    {
        let mut members = no_members();
        put(&mut members, "type", string(self.part_type.as_str()));
        put(&mut members, "data", object(clone_members(&self.data)));
        put_optional(&mut members, "metadata", opt_object(&self.metadata));
        object(members)
    }

    /// Reads a data part from a document.
    pub fn from_json(j: &Json) -> (r: Option<DataPart>)
        ensures
            r.deep_view() == DataPartView::from_json(j@),
    {
        let members = match members_of(j) {
            Some(members) => members,
            None => return None,
        };
        let part_type = match get_opt_string(members, "type") {
            Some(t) => t,
            None => return None,
        };
        let data = match get_object(members, "data") {
            Some(d) => clone_members(d),
            None => return None,
        };
        let metadata = match get_opt_object(members, "metadata") {
            Some(m) => m,
            None => return None,
        };
        Some(DataPart { part_type: part_type_or(part_type, "data"), data, metadata })
    }
}

impl PartView {
    /// A part on the wire: what its variant is on the wire. Nothing but the
    /// members that are there tells the variants apart.
    pub open spec fn to_json(self) -> JsonView {
        match self {
            PartView::Text(p) => p.to_json(),
            PartView::File(p) => p.to_json(),
            PartView::Data(p) => p.to_json(),
        }
    }

    /// The part that a document stands for: a text part if it reads as
    /// one, else a file part if it reads as one, else a data part if it
    /// reads as one.
    pub open spec fn from_json(j: JsonView) -> Option<PartView> {
        match TextPartView::from_json(j) {
            Some(p) => Some(PartView::Text(p)),
            None => match FilePartView::from_json(j) {
                Some(p) => Some(PartView::File(p)),
                None => match DataPartView::from_json(j) {
                    Some(p) => Some(PartView::Data(p)),
                    None => None,
                },
            },
        }
    }
}

impl Part {
    /// Writes the part as a document.
    pub fn to_json(&self) -> (j: Json)
        ensures
            j@ == self@.to_json(),
    {
        match self {
            Part::Text(p) => p.to_json(),
            Part::File(p) => p.to_json(),
            Part::Data(p) => p.to_json(),
        }
    }

    /// Reads a part from a document, telling the variant by the members
    /// that are there.
    pub fn from_json(j: &Json) -> (r: Option<Part>)
        ensures
            r.deep_view() == PartView::from_json(j@),
    {
        match TextPart::from_json(j) {
            Some(p) => Some(Part::Text(p)),
            None => match FilePart::from_json(j) {
                Some(p) => Some(Part::File(p)),
                None => match DataPart::from_json(j) {
                    Some(p) => Some(Part::Data(p)),
                    None => None,
                },
            },
        }
    }
}

/// The keys of the members of a part differ from one another.
proof fn lemma_part_keys_differ()
    ensures
        "type"@ != "text"@,
        "type"@ != "file"@,
        "type"@ != "data"@,
        "type"@ != "metadata"@,
        "text"@ != "file"@,
        "text"@ != "data"@,
        "text"@ != "metadata"@,
        "file"@ != "data"@,
        "file"@ != "metadata"@,
        "data"@ != "metadata"@,
        "name"@ != "mimeType"@,
        "name"@ != "bytes"@,
        "name"@ != "uri"@,
        "mimeType"@ != "bytes"@,
        "mimeType"@ != "uri"@,
        "bytes"@ != "uri"@,
{
    reveal_strlit("type");
    reveal_strlit("text");
    reveal_strlit("file");
    reveal_strlit("data");
    reveal_strlit("metadata");
    reveal_strlit("name");
    reveal_strlit("mimeType");
    reveal_strlit("bytes");
    reveal_strlit("uri");
    assert("type"@[1] != "text"@[1]);
    assert("type"@[0] != "file"@[0]);
    assert("type"@[0] != "data"@[0]);
    assert("text"@[0] != "file"@[0]);
    assert("text"@[0] != "data"@[0]);
    assert("file"@[0] != "data"@[0]);
    assert("type"@.len() != "metadata"@.len());
    assert("text"@.len() != "metadata"@.len());
    assert("file"@.len() != "metadata"@.len());
    assert("data"@.len() != "metadata"@.len());
    assert("name"@.len() != "mimeType"@.len());
    assert("name"@.len() != "bytes"@.len());
    assert("name"@.len() != "uri"@.len());
    assert("mimeType"@.len() != "bytes"@.len());
    assert("mimeType"@.len() != "uri"@.len());
    assert("bytes"@.len() != "uri"@.len());
}

/// What is found under a key in the members of a part on the wire: the
/// type, then the member `body` under `body_key`, then the metadata.
proof fn lemma_part_members(
    part_type: Seq<char>,
    body_key: Seq<char>,
    body: JsonView,
    metadata: Option<MembersView>,
    key: Seq<char>,
)
    requires
        "type"@ != body_key,
        "type"@ != "metadata"@,
        body_key != "metadata"@,
    ensures
        lookup(
            with_optional(
                Seq::<(Seq<char>, JsonView)>::empty().push(
                    ("type"@, JsonView::String(part_type)),
                ).push((body_key, body)),
                "metadata"@,
                object_json(metadata),
            ),
            key,
        ) == if key == "type"@ {
            Some(JsonView::String(part_type))
        } else if key == body_key {
            Some(body)
        } else if key == "metadata"@ {
            object_json(metadata)
        } else {
            None
        },
{
    let m0 = Seq::<(Seq<char>, JsonView)>::empty();
    let m1 = m0.push(("type"@, JsonView::String(part_type)));
    let m2 = m1.push((body_key, body));
    lemma_lookup_push(m0, "type"@, JsonView::String(part_type), key);
    lemma_lookup_push(m1, body_key, body, key);
    lemma_lookup_with_optional(m2, "metadata"@, object_json(metadata), key);
}

/// The content of a file that was written is the content that is read.
pub proof fn law_file_content_round_trip(content: FileContentView)
    ensures
        FileContentView::from_json(content.to_json()) == Some(content),
{
    lemma_part_keys_differ();
    let m0 = Seq::<(Seq<char>, JsonView)>::empty();
    let m1 = with_optional(m0, "name"@, string_json(content.name));
    let m2 = with_optional(m1, "mimeType"@, string_json(content.mime_type));
    let m3 = with_optional(m2, "bytes"@, string_json(content.bytes));
    let m4 = with_optional(m3, "uri"@, string_json(content.uri));
    assert forall|key: Seq<char>|
        lookup(m4, key) == if key == "name"@ {
            string_json(content.name)
        } else if key == "mimeType"@ {
            string_json(content.mime_type)
        } else if key == "bytes"@ {
            string_json(content.bytes)
        } else if key == "uri"@ {
            string_json(content.uri)
        } else {
            None
        } by {
        lemma_lookup_with_optional(m0, "name"@, string_json(content.name), key);
        lemma_lookup_with_optional(m1, "mimeType"@, string_json(content.mime_type), key);
        lemma_lookup_with_optional(m2, "bytes"@, string_json(content.bytes), key);
        lemma_lookup_with_optional(m3, "uri"@, string_json(content.uri), key);
    }
    assert(optional_string(m4, "name"@) == Some(content.name));
    assert(optional_string(m4, "mimeType"@) == Some(content.mime_type));
    assert(optional_string(m4, "bytes"@) == Some(content.bytes));
    assert(optional_string(m4, "uri"@) == Some(content.uri));
}

/// A part that was written is the part that is read, whichever of the
/// three variants it is: the members that are there tell the variant.
pub proof fn law_part_round_trip(part: PartView)
    ensures
        PartView::from_json(part.to_json()) == Some(part),
{
    lemma_part_keys_differ();
    match part {
        PartView::Text(p) => {
            let body = JsonView::String(p.text);
            lemma_part_members(p.part_type, "text"@, body, p.metadata, "type"@);
            lemma_part_members(p.part_type, "text"@, body, p.metadata, "text"@);
            lemma_part_members(p.part_type, "text"@, body, p.metadata, "metadata"@);
            assert(TextPartView::from_json(p.to_json()) == Some(p));
        },
        PartView::File(p) => {
            let body = p.file.to_json();
            lemma_part_members(p.part_type, "file"@, body, p.metadata, "type"@);
            lemma_part_members(p.part_type, "file"@, body, p.metadata, "text"@);
            lemma_part_members(p.part_type, "file"@, body, p.metadata, "file"@);
            lemma_part_members(p.part_type, "file"@, body, p.metadata, "metadata"@);
            law_file_content_round_trip(p.file);
            assert(TextPartView::from_json(p.to_json()) is None);
            assert(FilePartView::from_json(p.to_json()) == Some(p));
        },
        PartView::Data(p) => {
            let body = JsonView::Object(p.data);
            lemma_part_members(p.part_type, "data"@, body, p.metadata, "type"@);
            lemma_part_members(p.part_type, "data"@, body, p.metadata, "text"@);
            lemma_part_members(p.part_type, "data"@, body, p.metadata, "file"@);
            lemma_part_members(p.part_type, "data"@, body, p.metadata, "data"@);
            lemma_part_members(p.part_type, "data"@, body, p.metadata, "metadata"@);
            assert(TextPartView::from_json(p.to_json()) is None);
            assert(FilePartView::from_json(p.to_json()) is None);
            assert(DataPartView::from_json(p.to_json()) == Some(p));
        },
    }
}

/// A document with a string under `text` is read as a text part, whatever
/// else it holds, as long as its type and metadata are well formed.
pub proof fn law_text_member_makes_text_part(members: MembersView)
    requires
        required_string(members, "text"@) is Some,
        optional_string(members, "type"@) is Some,
        optional_object(members, "metadata"@) is Some,
    ensures
        PartView::from_json(JsonView::Object(members)) is Some,
        PartView::from_json(JsonView::Object(members))->Some_0 is Text,
{
}

/// A list of parts on the wire: the array of the parts.
pub open spec fn parts_json(parts: Seq<PartView>) -> JsonView {
    JsonView::Array(Seq::new(parts.len(), |i: int| parts[i].to_json()))
}

/// The list of parts that a document stands for.
pub open spec fn parts_from_json(j: JsonView) -> Option<Seq<PartView>> {
    match j {
        JsonView::Array(items) => if forall|i: int|
            0 <= i < items.len() ==> (#[trigger] PartView::from_json(items[i])) is Some {
            Some(Seq::new(items.len(), |i: int| PartView::from_json(items[i])->Some_0))
        } else {
            None
        },
        _ => None,
    }
}

/// Writes a list of parts as a document.
pub fn parts_to_json(parts: &Vec<Part>) -> (j: Json)
    ensures
        j@ == parts_json(parts.deep_view()),
{
    let mut items: Vec<Json> = Vec::new();
    let mut i: usize = 0;
    while i < parts.len()
        invariant
            i <= parts.len(),
            items@.len() == i,
            forall|k: int| 0 <= k < i ==> items@[k]@ == parts@[k]@.to_json(),
        decreases parts.len() - i,
    {
        items.push(parts[i].to_json());
        i += 1;
    }
    assert(items.deep_view() =~= Seq::new(
        parts.deep_view().len(),
        |i: int| parts.deep_view()[i].to_json(),
    ));
    array(items)
}

/// Reads a list of parts from a document.
pub fn parts_of_json(j: &Json) -> (r: Option<Vec<Part>>)
    ensures
        r.deep_view() == parts_from_json(j@),
{
    let items = match items_of(j) {
        Some(items) => items,
        None => return None,
    };
    let mut parts: Vec<Part> = Vec::new();
    let mut i: usize = 0;
    while i < items.len()
        invariant
            i <= items.len(),
            parts@.len() == i,
            j@ == JsonView::Array(items.deep_view()),
            forall|k: int|
                0 <= k < i ==> (#[trigger] PartView::from_json(items.deep_view()[k])) == Some(
                    parts@[k]@,
                ),
        decreases items.len() - i,
    {
        match Part::from_json(&items[i]) {
            Some(part) => parts.push(part),
            None => {
                assert(PartView::from_json(items.deep_view()[i as int]) is None);
                return None;
            },
        }
        i += 1;
    }
    assert(parts.deep_view() =~= Seq::new(
        items.deep_view().len(),
        |i: int| PartView::from_json(items.deep_view()[i])->Some_0,
    ));
    Some(parts)
}

/// A list of parts that was written is the list that is read.
pub proof fn law_parts_round_trip(parts: Seq<PartView>)
    ensures
        parts_from_json(parts_json(parts)) == Some(parts),
{
    let items = Seq::new(parts.len(), |i: int| parts[i].to_json());
    assert forall|i: int| 0 <= i < items.len() implies (#[trigger] PartView::from_json(items[i]))
        == Some(parts[i]) by {
        law_part_round_trip(parts[i]);
    }
    assert(Seq::new(items.len(), |i: int| PartView::from_json(items[i])->Some_0) =~= parts);
}

} // verus!
