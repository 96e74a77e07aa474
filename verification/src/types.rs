//! The values of the protocol: tasks with their statuses, messages, parts
//! and artifacts, and the requests and responses that carry them; each with
//! its mathematical model.

use crate::json::{
    clone_members, clone_opt_members, clone_opt_string, Json, JsonView, MembersView,
};
use crate::time::Timestamp;
use vstd::prelude::*;

verus! {

/// The state of a task.
#[derive(Clone, Copy, Debug, PartialEq, Eq, Structural)]
pub enum TaskState {
    Submitted,
    Working,
    InputRequired,
    Completed,
    Canceled,
    Failed,
    Rejected,
    Unknown,
}

impl View for TaskState {
    type V = TaskState;

    open spec fn view(&self) -> TaskState {
        *self
    }
}

impl DeepView for TaskState {
    type V = TaskState;

    open spec fn deep_view(&self) -> TaskState {
        *self
    }
}

impl TaskState {
    /// A task may be canceled while it is submitted, working or waiting for
    /// input.
    pub open spec fn spec_is_cancelable(self) -> bool {
        self == TaskState::Submitted || self == TaskState::Working || self
            == TaskState::InputRequired
    }

    /// No transition leaves a completed, canceled, failed or rejected task.
    pub open spec fn spec_is_terminal(self) -> bool {
        self == TaskState::Completed || self == TaskState::Canceled || self == TaskState::Failed
            || self == TaskState::Rejected
    }

    /// The name of the state as a variant, as it appears in diagnostics.
    pub open spec fn spec_name(self) -> Seq<char> {
        match self {
            TaskState::Submitted => "Submitted"@,
            TaskState::Working => "Working"@,
            TaskState::InputRequired => "InputRequired"@,
            TaskState::Completed => "Completed"@,
            TaskState::Canceled => "Canceled"@,
            TaskState::Failed => "Failed"@,
            TaskState::Rejected => "Rejected"@,
            TaskState::Unknown => "Unknown"@,
        }
    }

    /// Whether a task in this state can be canceled.
    #[verifier::when_used_as_spec(spec_is_cancelable)]
    pub fn is_cancelable(self) -> (r: bool)
        ensures
            r == self.spec_is_cancelable(),
    {
        match self {
            TaskState::Submitted | TaskState::Working | TaskState::InputRequired => true,
            _ => false,
        }
    }

    /// Whether no transition leaves this state.
    #[verifier::when_used_as_spec(spec_is_terminal)]
    pub fn is_terminal(self) -> (r: bool)
        ensures
            r == self.spec_is_terminal(),
    {
        match self {
            TaskState::Completed
            | TaskState::Canceled
            | TaskState::Failed
            | TaskState::Rejected => true,
            _ => false,
        }
    }

    /// The name of the state as a variant.
    pub fn name(self) -> (r: &'static str)
        ensures
            r@ == self.spec_name(),
    {
        match self {
            TaskState::Submitted => "Submitted",
            TaskState::Working => "Working",
            TaskState::InputRequired => "InputRequired",
            TaskState::Completed => "Completed",
            TaskState::Canceled => "Canceled",
            TaskState::Failed => "Failed",
            TaskState::Rejected => "Rejected",
            TaskState::Unknown => "Unknown",
        }
    }
}

/// A state in which a task can be canceled is not terminal, and a task
/// that was canceled is in a terminal state.
pub proof fn law_cancelable_is_not_terminal(state: TaskState)
    ensures
        state.spec_is_cancelable() ==> !state.spec_is_terminal(),
        TaskState::Canceled.spec_is_terminal(),
        !TaskState::Canceled.spec_is_cancelable(),
{
}

/// Model of [`TextPart`].
pub struct TextPartView {
    pub part_type: Seq<char>,
    pub text: Seq<char>,
    pub metadata: Option<MembersView>,
}

/// A part of a message that holds text.
#[derive(Debug, PartialEq, Eq)]
pub struct TextPart {
    pub part_type: String,
    pub text: String,
    pub metadata: Option<Vec<(String, Json)>>,
}

impl DeepView for TextPart {
    type V = TextPartView;

    open spec fn deep_view(&self) -> TextPartView {
        TextPartView {
            part_type: self.part_type@,
            text: self.text@,
            metadata: self.metadata.deep_view(),
        }
    }
}

impl View for TextPart {
    type V = TextPartView;

    open spec fn view(&self) -> TextPartView {
        self.deep_view()
    }
}

impl Clone for TextPart {
    fn clone(&self) -> (r: Self)
        ensures
            r@ == self@,
    {
        TextPart {
            part_type: self.part_type.clone(),
            text: self.text.clone(),
            metadata: clone_opt_members(&self.metadata),
        }
    }
}

impl Default for TextPart {
    fn default() -> (r: Self)
        ensures
            r@ == (TextPartView { part_type: "text"@, text: Seq::empty(), metadata: None }),
    {
        TextPart { part_type: String::from_str("text"), text: String::new(), metadata: None }
    }
}

/// Model of [`FileContent`].
pub struct FileContentView {
    pub name: Option<Seq<char>>,
    pub mime_type: Option<Seq<char>>,
    pub bytes: Option<Seq<char>>,
    pub uri: Option<Seq<char>>,
}

/// The content of a file: base64 text of its bytes, or a URI.
#[derive(Debug, PartialEq, Eq)]
pub struct FileContent {
    pub name: Option<String>,
    pub mime_type: Option<String>,
    pub bytes: Option<String>,
    pub uri: Option<String>,
}

impl DeepView for FileContent {
    type V = FileContentView;

    open spec fn deep_view(&self) -> FileContentView {
        FileContentView {
            name: self.name.deep_view(),
            mime_type: self.mime_type.deep_view(),
            bytes: self.bytes.deep_view(),
            uri: self.uri.deep_view(),
        }
    }
}

impl View for FileContent {
    type V = FileContentView;

    open spec fn view(&self) -> FileContentView {
        self.deep_view()
    }
}

impl Clone for FileContent {
    fn clone(&self) -> (r: Self)
        ensures
            r@ == self@,
    {
        FileContent {
            name: clone_opt_string(&self.name),
            mime_type: clone_opt_string(&self.mime_type),
            bytes: clone_opt_string(&self.bytes),
            uri: clone_opt_string(&self.uri),
        }
    }
}

/// Model of [`FilePart`].
pub struct FilePartView {
    pub part_type: Seq<char>,
    pub file: FileContentView,
    pub metadata: Option<MembersView>,
}

/// A part of a message that holds a file.
#[derive(Debug, PartialEq, Eq)]
pub struct FilePart {
    pub part_type: String,
    pub file: FileContent,
    pub metadata: Option<Vec<(String, Json)>>,
}

impl DeepView for FilePart {
    type V = FilePartView;

    open spec fn deep_view(&self) -> FilePartView {
        FilePartView {
            part_type: self.part_type@,
            file: self.file@,
            metadata: self.metadata.deep_view(),
        }
    }
}

impl View for FilePart {
    type V = FilePartView;

    open spec fn view(&self) -> FilePartView {
        self.deep_view()
    }
}

impl Clone for FilePart {
    fn clone(&self) -> (r: Self)
        ensures
            r@ == self@,
    {
        FilePart {
            part_type: self.part_type.clone(),
            file: self.file.clone(),
            metadata: clone_opt_members(&self.metadata),
        }
    }
}

impl Default for FilePart {
    fn default() -> (r: Self)
        ensures
            r@ == (FilePartView {
                part_type: "file"@,
                file: FileContentView { name: None, mime_type: None, bytes: None, uri: None },
                metadata: None,
            }),
    {
        FilePart {
            part_type: String::from_str("file"),
            file: FileContent { name: None, mime_type: None, bytes: None, uri: None },
            metadata: None,
        }
    }
}

/// Model of [`DataPart`].
pub struct DataPartView {
    pub part_type: Seq<char>,
    pub data: MembersView,
    pub metadata: Option<MembersView>,
}

/// A part of a message that holds structured data: the members of a JSON
/// object.
#[derive(Debug, PartialEq, Eq)]
pub struct DataPart {
    pub part_type: String,
    pub data: Vec<(String, Json)>,
    pub metadata: Option<Vec<(String, Json)>>,
}

impl DeepView for DataPart {
    type V = DataPartView;

    open spec fn deep_view(&self) -> DataPartView {
        DataPartView {
            part_type: self.part_type@,
            data: self.data.deep_view(),
            metadata: self.metadata.deep_view(),
        }
    }
}

impl View for DataPart {
    type V = DataPartView;

    open spec fn view(&self) -> DataPartView {
        self.deep_view()
    }
}

impl Clone for DataPart {
    fn clone(&self) -> (r: Self)
        ensures
            r@ == self@,
    {
        DataPart {
            part_type: self.part_type.clone(),
            data: clone_members(&self.data),
            metadata: clone_opt_members(&self.metadata),
        }
    }
}

impl Default for DataPart {
    fn default() -> (r: Self)
        ensures
            r@ == (DataPartView { part_type: "data"@, data: Seq::empty(), metadata: None }),
    {
        let data: Vec<(String, Json)> = Vec::new();
        assert(data.deep_view() =~= Seq::empty());
        DataPart { part_type: String::from_str("data"), data, metadata: None }
    }
}

/// Model of [`Part`].
pub enum PartView {
    Text(TextPartView),
    File(FilePartView),
    Data(DataPartView),
}

/// One part of a message or of an artifact: text, a file, or data.
#[derive(Debug, PartialEq, Eq)]
pub enum Part {
    Text(TextPart),
    File(FilePart),
    Data(DataPart),
}

impl DeepView for Part {
    type V = PartView;

    open spec fn deep_view(&self) -> PartView {
        match self {
            Part::Text(p) => PartView::Text(p@),
            Part::File(p) => PartView::File(p@),
            Part::Data(p) => PartView::Data(p@),
        }
    }
}

impl View for Part {
    type V = PartView;

    open spec fn view(&self) -> PartView {
        self.deep_view()
    }
}

impl Clone for Part {
    fn clone(&self) -> (r: Self)
        ensures
            r@ == self@,
    {
        match self {
            Part::Text(p) => Part::Text(p.clone()),
            Part::File(p) => Part::File(p.clone()),
            Part::Data(p) => Part::Data(p.clone()),
        }
    }
}

/// Copies a list of parts.
pub fn clone_parts(parts: &Vec<Part>) -> (r: Vec<Part>)
    ensures
        r.deep_view() == parts.deep_view(),
{
    let mut out: Vec<Part> = Vec::new();
    let mut i: usize = 0;
    while i < parts.len()
        invariant
            i <= parts.len(),
            out@.len() == i,
            forall|k: int| 0 <= k < i ==> out@[k]@ == parts@[k]@,
        decreases parts.len() - i,
    {
        out.push(parts[i].clone());
        i += 1;
    }
    assert(out.deep_view() =~= parts.deep_view());
    out
}

/// Model of [`Message`].
pub struct MessageView {
    pub role: Seq<char>,
    pub parts: Seq<PartView>,
    pub metadata: Option<MembersView>,
}

/// A message exchanged between a user and an agent.
#[derive(Debug, PartialEq, Eq)]
pub struct Message {
    pub role: String,
    pub parts: Vec<Part>,
    pub metadata: Option<Vec<(String, Json)>>,
}

impl DeepView for Message {
    type V = MessageView;

    open spec fn deep_view(&self) -> MessageView {
        MessageView {
            role: self.role@,
            parts: self.parts.deep_view(),
            metadata: self.metadata.deep_view(),
        }
    }
}

impl View for Message {
    type V = MessageView;

    open spec fn view(&self) -> MessageView {
        self.deep_view()
    }
}

impl Clone for Message {
    fn clone(&self) -> (r: Self)
        ensures
            r@ == self@,
    {
        Message {
            role: self.role.clone(),
            parts: clone_parts(&self.parts),
            metadata: clone_opt_members(&self.metadata),
        }
    }
}

/// Copies an optional message.
pub fn clone_opt_message(message: &Option<Message>) -> (r: Option<Message>)
    ensures
        r.deep_view() == message.deep_view(),
{
    match message {
        Some(m) => Some(m.clone()),
        None => None,
    }
}

/// Model of [`TaskStatus`].
pub struct TaskStatusView {
    pub state: TaskState,
    pub message: Option<MessageView>,
    pub timestamp: Timestamp,
}

/// The status of a task at one instant.
#[derive(Debug, PartialEq, Eq)]
pub struct TaskStatus {
    pub state: TaskState,
    pub message: Option<Message>,
    pub timestamp: Timestamp,
}

impl DeepView for TaskStatus {
    type V = TaskStatusView;

    open spec fn deep_view(&self) -> TaskStatusView {
        TaskStatusView {
            state: self.state,
            message: self.message.deep_view(),
            timestamp: self.timestamp,
        }
    }
}

impl View for TaskStatus {
    type V = TaskStatusView;

    open spec fn view(&self) -> TaskStatusView {
        self.deep_view()
    }
}

impl Clone for TaskStatus {
    fn clone(&self) -> (r: Self)
        ensures
            r@ == self@,
    {
        TaskStatus {
            state: self.state,
            message: clone_opt_message(&self.message),
            timestamp: self.timestamp,
        }
    }
}

/// Model of [`Artifact`].
pub struct ArtifactView {
    pub name: Option<Seq<char>>,
    pub description: Option<Seq<char>>,
    pub parts: Seq<PartView>,
    pub index: i32,
    pub append: Option<bool>,
    pub metadata: Option<MembersView>,
    pub last_chunk: Option<bool>,
}

/// Output attached to a task, possibly one chunk of it.
#[derive(Debug, PartialEq, Eq)]
pub struct Artifact {
    pub name: Option<String>,
    pub description: Option<String>,
    pub parts: Vec<Part>,
    pub index: i32,
    pub append: Option<bool>,
    pub metadata: Option<Vec<(String, Json)>>,
    pub last_chunk: Option<bool>,
}

impl DeepView for Artifact {
    type V = ArtifactView;

    open spec fn deep_view(&self) -> ArtifactView {
        ArtifactView {
            name: self.name.deep_view(),
            description: self.description.deep_view(),
            parts: self.parts.deep_view(),
            index: self.index,
            append: self.append,
            metadata: self.metadata.deep_view(),
            last_chunk: self.last_chunk,
        }
    }
}

impl View for Artifact {
    type V = ArtifactView;

    open spec fn view(&self) -> ArtifactView {
        self.deep_view()
    }
}

impl Clone for Artifact {
    fn clone(&self) -> (r: Self)
        ensures
            r@ == self@,
    {
        Artifact {
            name: clone_opt_string(&self.name),
            description: clone_opt_string(&self.description),
            parts: clone_parts(&self.parts),
            index: self.index,
            append: self.append,
            metadata: clone_opt_members(&self.metadata),
            last_chunk: self.last_chunk,
        }
    }
}

/// Copies a list of artifacts.
pub fn clone_artifacts(artifacts: &Vec<Artifact>) -> (r: Vec<Artifact>)
    ensures
        r.deep_view() == artifacts.deep_view(),
{
    let mut out: Vec<Artifact> = Vec::new();
    let mut i: usize = 0;
    while i < artifacts.len()
        invariant
            i <= artifacts.len(),
            out@.len() == i,
            forall|k: int| 0 <= k < i ==> out@[k]@ == artifacts@[k]@,
        decreases artifacts.len() - i,
    {
        out.push(artifacts[i].clone());
        i += 1;
    }
    assert(out.deep_view() =~= artifacts.deep_view());
    out
}

/// Model of [`Task`].
pub struct TaskView {
    pub id: Seq<char>,
    pub session_id: Option<Seq<char>>,
    pub status: TaskStatusView,
    pub artifacts: Option<Seq<ArtifactView>>,
    pub metadata: Option<MembersView>,
}

/// A unit of work tracked by its id.
#[derive(Debug, PartialEq, Eq)]
pub struct Task {
    pub id: String,
    pub session_id: Option<String>,
    pub status: TaskStatus,
    pub artifacts: Option<Vec<Artifact>>,
    pub metadata: Option<Vec<(String, Json)>>,
}

impl DeepView for Task {
    type V = TaskView;

    open spec fn deep_view(&self) -> TaskView {
        TaskView {
            id: self.id@,
            session_id: self.session_id.deep_view(),
            status: self.status@,
            artifacts: self.artifacts.deep_view(),
            metadata: self.metadata.deep_view(),
        }
    }
}

impl View for Task {
    type V = TaskView;

    open spec fn view(&self) -> TaskView {
        self.deep_view()
    }
}

impl Clone for Task {
    fn clone(&self) -> (r: Self)
        ensures
            r@ == self@,
    {
        let artifacts = match &self.artifacts {
            Some(list) => Some(clone_artifacts(list)),
            None => None,
        };
        Task {
            id: self.id.clone(),
            session_id: clone_opt_string(&self.session_id),
            status: self.status.clone(),
            artifacts,
            metadata: clone_opt_members(&self.metadata),
        }
    }
}

/// Model of [`TaskStatusUpdateEvent`].
pub struct TaskStatusUpdateEventView {
    pub id: Seq<char>,
    pub status: TaskStatusView,
    pub final_status: bool,
    pub metadata: Option<MembersView>,
}

/// Notice that the status of a task has changed.
#[derive(Debug, PartialEq, Eq)]
pub struct TaskStatusUpdateEvent {
    pub id: String,
    pub status: TaskStatus,
    pub final_status: bool,
    pub metadata: Option<Vec<(String, Json)>>,
}

impl DeepView for TaskStatusUpdateEvent {
    type V = TaskStatusUpdateEventView;

    open spec fn deep_view(&self) -> TaskStatusUpdateEventView {
        TaskStatusUpdateEventView {
            id: self.id@,
            status: self.status@,
            final_status: self.final_status,
            metadata: self.metadata.deep_view(),
        }
    }
}

impl View for TaskStatusUpdateEvent {
    type V = TaskStatusUpdateEventView;

    open spec fn view(&self) -> TaskStatusUpdateEventView {
        self.deep_view()
    }
}

impl Clone for TaskStatusUpdateEvent {
    fn clone(&self) -> (r: Self)
        ensures
            r@ == self@,
    {
        TaskStatusUpdateEvent {
            id: self.id.clone(),
            status: self.status.clone(),
            final_status: self.final_status,
            metadata: clone_opt_members(&self.metadata),
        }
    }
}

/// Model of [`TaskArtifactUpdateEvent`].
pub struct TaskArtifactUpdateEventView {
    pub id: Seq<char>,
    pub artifact: ArtifactView,
    pub metadata: Option<MembersView>,
}

/// Notice that an artifact was attached to a task.
#[derive(Debug, PartialEq, Eq)]
pub struct TaskArtifactUpdateEvent {
    pub id: String,
    pub artifact: Artifact,
    pub metadata: Option<Vec<(String, Json)>>,
}

impl DeepView for TaskArtifactUpdateEvent {
    type V = TaskArtifactUpdateEventView;

    open spec fn deep_view(&self) -> TaskArtifactUpdateEventView {
        TaskArtifactUpdateEventView {
            id: self.id@,
            artifact: self.artifact@,
            metadata: self.metadata.deep_view(),
        }
    }
}

impl View for TaskArtifactUpdateEvent {
    type V = TaskArtifactUpdateEventView;

    open spec fn view(&self) -> TaskArtifactUpdateEventView {
        self.deep_view()
    }
}

impl Clone for TaskArtifactUpdateEvent {
    fn clone(&self) -> (r: Self)
        ensures
            r@ == self@,
    {
        TaskArtifactUpdateEvent {
            id: self.id.clone(),
            artifact: self.artifact.clone(),
            metadata: clone_opt_members(&self.metadata),
        }
    }
}

/// Draws a random identifier: `uuid::Uuid::new_v4`, written out in the
/// hyphenated form by its `Display` impl. Nothing is claimed of the
/// result, which differs from call to call.
#[verifier::external_body]
pub(crate) fn random_id() -> (id: String) {
    uuid::Uuid::new_v4().to_string()
}

/// Model of [`JsonRpcMessage`].
pub struct JsonRpcMessageView {
    pub jsonrpc: Seq<char>,
    pub id: Option<Seq<char>>,
}

/// What every JSON-RPC message carries: the protocol version and an
/// optional id that ties a response to its request.
#[derive(Debug, PartialEq, Eq)]
pub struct JsonRpcMessage {
    pub jsonrpc: String,
    pub id: Option<String>,
}

impl DeepView for JsonRpcMessage {
    type V = JsonRpcMessageView;

    open spec fn deep_view(&self) -> JsonRpcMessageView {
        JsonRpcMessageView { jsonrpc: self.jsonrpc@, id: self.id.deep_view() }
    }
}

impl View for JsonRpcMessage {
    type V = JsonRpcMessageView;

    open spec fn view(&self) -> JsonRpcMessageView {
        self.deep_view()
    }
}

impl Clone for JsonRpcMessage {
    fn clone(&self) -> (r: Self)
        ensures
            r@ == self@,
    {
        JsonRpcMessage { jsonrpc: self.jsonrpc.clone(), id: clone_opt_string(&self.id) }
    }
}

impl Default for JsonRpcMessage {
    /// Version 2.0 with a freshly drawn id.
    fn default() -> (r: Self)
        ensures
            r.jsonrpc@ == "2.0"@,
            r.id is Some,
    {
        JsonRpcMessage { jsonrpc: String::from_str("2.0"), id: Some(random_id()) }
    }
}

/// Model of [`JsonRpcError`].
pub struct JsonRpcErrorView {
    pub code: i32,
    pub message: Seq<char>,
    pub data: Option<JsonView>,
}

/// The error member of a JSON-RPC response.
#[derive(Debug, PartialEq, Eq)]
pub struct JsonRpcError {
    pub code: i32,
    pub message: String,
    pub data: Option<Json>,
}

impl DeepView for JsonRpcError {
    type V = JsonRpcErrorView;

    open spec fn deep_view(&self) -> JsonRpcErrorView {
        JsonRpcErrorView {
            code: self.code,
            message: self.message@,
            data: self.data.deep_view(),
        }
    }
}

impl View for JsonRpcError {
    type V = JsonRpcErrorView;

    open spec fn view(&self) -> JsonRpcErrorView {
        self.deep_view()
    }
}

impl Clone for JsonRpcError {
    fn clone(&self) -> (r: Self)
        ensures
            r@ == self@,
    {
        let data = match &self.data {
            Some(d) => Some(d.clone()),
            None => None,
        };
        JsonRpcError { code: self.code, message: self.message.clone(), data }
    }
}

/// Model of [`JsonRpcResponse`].
pub struct JsonRpcResponseView<T> {
    pub jsonrpc: Seq<char>,
    pub id: Option<Seq<char>>,
    pub result: Option<T>,
    pub error: Option<JsonRpcErrorView>,
}

/// A JSON-RPC response.
#[derive(Debug, PartialEq, Eq)]
pub struct JsonRpcResponse<T> {
    pub jsonrpc: String,
    pub id: Option<String>,
    pub result: Option<T>,
    pub error: Option<JsonRpcError>,
}

impl<T: DeepView> DeepView for JsonRpcResponse<T> {
    type V = JsonRpcResponseView<T::V>;

    open spec fn deep_view(&self) -> JsonRpcResponseView<T::V> {
        JsonRpcResponseView {
            jsonrpc: self.jsonrpc@,
            id: self.id.deep_view(),
            result: self.result.deep_view(),
            error: self.error.deep_view(),
        }
    }
}

impl<T: DeepView> View for JsonRpcResponse<T> {
    type V = JsonRpcResponseView<T::V>;

    open spec fn view(&self) -> JsonRpcResponseView<T::V> {
        self.deep_view()
    }
}

impl<T> JsonRpcResponseView<T> {
    /// A response carries a result or an error, and never both.
    pub open spec fn well_formed(self) -> bool {
        self.result is Some <==> self.error is None
    }
}

impl<T> Default for JsonRpcResponse<T> {
    /// Version 2.0 with a freshly drawn id, and neither result nor error
    /// yet.
    fn default() -> (r: Self)
        ensures
            r.jsonrpc@ == "2.0"@,
            r.id is Some,
            r.result is None,
            r.error is None,
    {
        JsonRpcResponse {
            jsonrpc: String::from_str("2.0"),
            id: Some(random_id()),
            result: None,
            error: None,
        }
    }
}

/// Model of [`TaskIdParams`].
pub struct TaskIdParamsView {
    pub id: Seq<char>,
    pub metadata: Option<MembersView>,
}

/// Parameters of an operation that needs only the id of a task.
#[derive(Debug, PartialEq, Eq)]
pub struct TaskIdParams {
    pub id: String,
    pub metadata: Option<Vec<(String, Json)>>,
}

impl DeepView for TaskIdParams {
    type V = TaskIdParamsView;

    open spec fn deep_view(&self) -> TaskIdParamsView {
        TaskIdParamsView { id: self.id@, metadata: self.metadata.deep_view() }
    }
}

impl View for TaskIdParams {
    type V = TaskIdParamsView;

    open spec fn view(&self) -> TaskIdParamsView {
        self.deep_view()
    }
}

impl Clone for TaskIdParams {
    fn clone(&self) -> (r: Self)
        ensures
            r@ == self@,
    {
        TaskIdParams { id: self.id.clone(), metadata: clone_opt_members(&self.metadata) }
    }
}

/// Model of [`TaskQueryParams`].
pub struct TaskQueryParamsView {
    pub id: Seq<char>,
    pub history_length: Option<i32>,
    pub metadata: Option<MembersView>,
}

/// Parameters of a query for a task.
#[derive(Debug, PartialEq, Eq)]
pub struct TaskQueryParams {
    pub id: String,
    pub history_length: Option<i32>,
    pub metadata: Option<Vec<(String, Json)>>,
}

impl DeepView for TaskQueryParams {
    type V = TaskQueryParamsView;

    open spec fn deep_view(&self) -> TaskQueryParamsView {
        TaskQueryParamsView {
            id: self.id@,
            history_length: self.history_length,
            metadata: self.metadata.deep_view(),
        }
    }
}

impl View for TaskQueryParams {
    type V = TaskQueryParamsView;

    open spec fn view(&self) -> TaskQueryParamsView {
        self.deep_view()
    }
}

impl Clone for TaskQueryParams {
    fn clone(&self) -> (r: Self)
        ensures
            r@ == self@,
    {
        TaskQueryParams {
            id: self.id.clone(),
            history_length: self.history_length,
            metadata: clone_opt_members(&self.metadata),
        }
    }
}

/// Model of [`TaskSendParams`].
pub struct TaskSendParamsView {
    pub id: Seq<char>,
    pub session_id: Option<Seq<char>>,
    pub message: MessageView,
    pub history_length: Option<i32>,
    pub metadata: Option<MembersView>,
}

/// Parameters of a message sent to a task.
#[derive(Debug, PartialEq, Eq)]
pub struct TaskSendParams {
    pub id: String,
    pub session_id: Option<String>,
    pub message: Message,
    pub history_length: Option<i32>,
    pub metadata: Option<Vec<(String, Json)>>,
}

impl DeepView for TaskSendParams {
    type V = TaskSendParamsView;

    open spec fn deep_view(&self) -> TaskSendParamsView {
        TaskSendParamsView {
            id: self.id@,
            session_id: self.session_id.deep_view(),
            message: self.message@,
            history_length: self.history_length,
            metadata: self.metadata.deep_view(),
        }
    }
}

impl View for TaskSendParams {
    type V = TaskSendParamsView;

    open spec fn view(&self) -> TaskSendParamsView {
        self.deep_view()
    }
}

impl Clone for TaskSendParams {
    fn clone(&self) -> (r: Self)
        ensures
            r@ == self@,
    {
        TaskSendParams {
            id: self.id.clone(),
            session_id: clone_opt_string(&self.session_id),
            message: self.message.clone(),
            history_length: self.history_length,
            metadata: clone_opt_members(&self.metadata),
        }
    }
}

/// Model of a request: the envelope and the model of its parameters.
pub struct RequestView<P> {
    pub jsonrpc: Seq<char>,
    pub id: Option<Seq<char>>,
    pub method: Seq<char>,
    pub params: P,
}

/// Request to send a message to a task.
#[derive(Debug, PartialEq, Eq)]
pub struct SendTaskRequest {
    pub jsonrpc: String,
    pub id: Option<String>,
    pub method: String,
    pub params: TaskSendParams,
}

impl DeepView for SendTaskRequest {
    type V = RequestView<TaskSendParamsView>;

    open spec fn deep_view(&self) -> RequestView<TaskSendParamsView> {
        RequestView {
            jsonrpc: self.jsonrpc@,
            id: self.id.deep_view(),
            method: self.method@,
            params: self.params@,
        }
    }
}

impl View for SendTaskRequest {
    type V = RequestView<TaskSendParamsView>;

    open spec fn view(&self) -> RequestView<TaskSendParamsView> {
        self.deep_view()
    }
}

impl Clone for SendTaskRequest {
    fn clone(&self) -> (r: Self)
        ensures
            r@ == self@,
    {
        SendTaskRequest {
            jsonrpc: self.jsonrpc.clone(),
            id: clone_opt_string(&self.id),
            method: self.method.clone(),
            params: self.params.clone(),
        }
    }
}

impl Default for SendTaskRequest {
    /// A `tasks/send` request with freshly drawn request, task and session
    /// ids and an empty user message.
    fn default() -> (r: Self)
        ensures
            r.jsonrpc@ == "2.0"@,
            r.id is Some,
            r.method@ == "tasks/send"@,
            r.params.session_id is Some,
            r.params.message@ == (MessageView {
                role: "user"@,
                parts: Seq::empty(),
                metadata: None,
            }),
            r.params.history_length is None,
            r.params.metadata is None,
    {
        let parts: Vec<Part> = Vec::new();
        assert(parts.deep_view() =~= Seq::empty());
        SendTaskRequest {
            jsonrpc: String::from_str("2.0"),
            id: Some(random_id()),
            method: String::from_str("tasks/send"),
            params: TaskSendParams {
                id: random_id(),
                session_id: Some(random_id()),
                message: Message { role: String::from_str("user"), parts, metadata: None },
                history_length: None,
                metadata: None,
            },
        }
    }
}

/// Request for the current record of a task.
#[derive(Debug, PartialEq, Eq)]
pub struct GetTaskRequest {
    pub jsonrpc: String,
    pub id: Option<String>,
    pub method: String,
    pub params: TaskQueryParams,
}

impl DeepView for GetTaskRequest {
    type V = RequestView<TaskQueryParamsView>;

    open spec fn deep_view(&self) -> RequestView<TaskQueryParamsView> {
        RequestView {
            jsonrpc: self.jsonrpc@,
            id: self.id.deep_view(),
            method: self.method@,
            params: self.params@,
        }
    }
}

impl View for GetTaskRequest {
    type V = RequestView<TaskQueryParamsView>;

    open spec fn view(&self) -> RequestView<TaskQueryParamsView> {
        self.deep_view()
    }
}

impl Clone for GetTaskRequest {
    fn clone(&self) -> (r: Self)
        ensures
            r@ == self@,
    {
        GetTaskRequest {
            jsonrpc: self.jsonrpc.clone(),
            id: clone_opt_string(&self.id),
            method: self.method.clone(),
            params: self.params.clone(),
        }
    }
}

impl Default for GetTaskRequest {
    /// A `tasks/get` request with freshly drawn request and task ids.
    fn default() -> (r: Self)
        ensures
            r.jsonrpc@ == "2.0"@,
            r.id is Some,
            r.method@ == "tasks/get"@,
            r.params.history_length is None,
            r.params.metadata is None,
    {
        GetTaskRequest {
            jsonrpc: String::from_str("2.0"),
            id: Some(random_id()),
            method: String::from_str("tasks/get"),
            params: TaskQueryParams { id: random_id(), history_length: None, metadata: None },
        }
    }
}

/// Request to cancel a task.
#[derive(Debug, PartialEq, Eq)]
pub struct CancelTaskRequest {
    pub jsonrpc: String,
    pub id: Option<String>,
    pub method: String,
    pub params: TaskIdParams,
}

impl DeepView for CancelTaskRequest {
    type V = RequestView<TaskIdParamsView>;

    open spec fn deep_view(&self) -> RequestView<TaskIdParamsView> {
        RequestView {
            jsonrpc: self.jsonrpc@,
            id: self.id.deep_view(),
            method: self.method@,
            params: self.params@,
        }
    }
}

impl View for CancelTaskRequest {
    type V = RequestView<TaskIdParamsView>;

    open spec fn view(&self) -> RequestView<TaskIdParamsView> {
        self.deep_view()
    }
}

impl Clone for CancelTaskRequest {
    fn clone(&self) -> (r: Self)
        ensures
            r@ == self@,
    {
        CancelTaskRequest {
            jsonrpc: self.jsonrpc.clone(),
            id: clone_opt_string(&self.id),
            method: self.method.clone(),
            params: self.params.clone(),
        }
    }
}

impl Default for CancelTaskRequest {
    /// A `tasks/cancel` request with freshly drawn request and task ids.
    fn default() -> (r: Self)
        ensures
            r.jsonrpc@ == "2.0"@,
            r.id is Some,
            r.method@ == "tasks/cancel"@,
            r.params.metadata is None,
    {
        CancelTaskRequest {
            jsonrpc: String::from_str("2.0"),
            id: Some(random_id()),
            method: String::from_str("tasks/cancel"),
            params: TaskIdParams { id: random_id(), metadata: None },
        }
    }
}

} // verus!
