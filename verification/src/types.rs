//! Protocol data: messages, tasks and the JSON-RPC envelope.
//!
//! Every type has a view that replaces strings by `Seq<char>` and vectors by
//! `Seq`, and a `clone` that keeps the view. JSON values that the engine only
//! passes on (request ids, foreign metadata) are carried as
//! `serde_json::Value` and never inspected.

use vstd::prelude::*;

verus! {

pub const JSONRPC_VERSION: &'static str = "2.0";

/// `serde_json::Value`, carried through but opaque to the proofs.
#[verifier::external_type_specification]
#[verifier::external_body]
pub struct ExJsonValue(serde_json::Value);

/// `Clone::clone` of `serde_json::Value` is a deep structural copy: the copy
/// is equal to the value copied.
pub assume_specification[ <serde_json::Value as Clone>::clone ](v: &serde_json::Value) -> (r:
    serde_json::Value)
    ensures
        r == *v,
;

/// The view of an optional string.
pub open spec fn opt_text(o: Option<String>) -> Option<Seq<char>> {
    match o {
        Some(s) => Some(s@),
        None => None,
    }
}

/// Copies an optional string.
pub fn clone_opt_string(o: &Option<String>) -> (r: Option<String>)
    ensures
        opt_text(r) == opt_text(*o),
{
    match o {
        Some(s) => Some(s.clone()),
        None => None,
    }
}

/// Who wrote a message.
#[derive(Clone, Copy, Debug, PartialEq, Eq, Structural)]
pub enum Role {
    User,
    Agent,
}

/// One piece of message content.
#[derive(Debug, PartialEq)]
pub struct Part {
    pub text: Option<String>,
}

/// The mathematical model of `Part`: texts as `Seq<char>`, lists as
/// `Seq`.
pub struct PartView {
    pub text: Option<Seq<char>>,
}

impl View for Part {
    type V = PartView;

    open spec fn view(&self) -> PartView {
        PartView { text: opt_text(self.text) }
    }
}

impl Clone for Part {
    fn clone(&self) -> (r: Self)
        ensures
            r@ == self@,
    {
        Part { text: clone_opt_string(&self.text) }
    }
}

impl Part {
    /// A part that holds `text`.
    pub fn text(text: &str) -> (p: Part)
        ensures
            p@ == (PartView { text: Some(text@) }),
    {
        Part { text: Some(text.to_owned()) }
    }
}

/// The views of a list of parts.
pub open spec fn part_views(v: Seq<Part>) -> Seq<PartView> {
    Seq::new(v.len(), |i: int| v[i]@)
}

/// Copies a list of parts.
pub fn clone_parts(v: &Vec<Part>) -> (r: Vec<Part>)
    ensures
        part_views(r@) == part_views(v@),
{
    let mut r: Vec<Part> = Vec::new();
    let mut i: usize = 0;
    while i < v.len()
        invariant
            i <= v.len(),
            r@.len() == i,
            forall|j: int| 0 <= j < i ==> r@[j]@ == v@[j]@,
        decreases v.len() - i,
    {
        r.push(v[i].clone());
        i += 1;
    }
    assert(part_views(r@) =~= part_views(v@));
    r
}

/// A metadata value: a number or a text that the engine wrote, or any other
/// JSON value that it only carries.
#[derive(Debug, PartialEq)]
pub enum MetaValue {
    Number(u64),
    Text(String),
    Json(serde_json::Value),
}

/// The mathematical model of `MetaValue`: texts as `Seq<char>`, lists as
/// `Seq`.
pub enum MetaValueView {
    Number(u64),
    Text(Seq<char>),
    Json(serde_json::Value),
}

impl View for MetaValue {
    type V = MetaValueView;

    open spec fn view(&self) -> MetaValueView {
        match self {
            MetaValue::Number(n) => MetaValueView::Number(*n),
            MetaValue::Text(s) => MetaValueView::Text(s@),
            MetaValue::Json(v) => MetaValueView::Json(*v),
        }
    }
}

impl Clone for MetaValue {
    fn clone(&self) -> (r: Self)
        ensures
            r@ == self@,
    {
        match self {
            MetaValue::Number(n) => MetaValue::Number(*n),
            MetaValue::Text(s) => MetaValue::Text(s.clone()),
            MetaValue::Json(v) => MetaValue::Json(v.clone()),
        }
    }
}

/// One named metadata value.
#[derive(Debug, PartialEq)]
pub struct MetaEntry {
    pub key: String,
    pub value: MetaValue,
}

/// The mathematical model of `MetaEntry`: texts as `Seq<char>`, lists as
/// `Seq`.
pub struct MetaEntryView {
    pub key: Seq<char>,
    pub value: MetaValueView,
}

impl View for MetaEntry {
    type V = MetaEntryView;

    open spec fn view(&self) -> MetaEntryView {
        MetaEntryView { key: self.key@, value: self.value@ }
    }
}

impl Clone for MetaEntry {
    fn clone(&self) -> (r: Self)
        ensures
            r@ == self@,
    {
        MetaEntry { key: self.key.clone(), value: self.value.clone() }
    }
}

/// The views of a list of metadata entries.
pub open spec fn entry_views(v: Seq<MetaEntry>) -> Seq<MetaEntryView> {
    Seq::new(v.len(), |i: int| v[i]@)
}

/// The view of optional metadata.
pub open spec fn opt_entry_views(o: Option<Vec<MetaEntry>>) -> Option<Seq<MetaEntryView>> {
    match o {
        Some(v) => Some(entry_views(v@)),
        None => None,
    }
}

/// Copies optional metadata.
pub fn clone_metadata(o: &Option<Vec<MetaEntry>>) -> (r: Option<Vec<MetaEntry>>)
    ensures
        opt_entry_views(r) == opt_entry_views(*o),
{
    match o {
        Some(v) => {
            let mut r: Vec<MetaEntry> = Vec::new();
            let mut i: usize = 0;
            while i < v.len()
                invariant
                    i <= v.len(),
                    r@.len() == i,
                    forall|j: int| 0 <= j < i ==> r@[j]@ == v@[j]@,
                decreases v.len() - i,
            {
                r.push(v[i].clone());
                i += 1;
            }
            assert(entry_views(r@) =~= entry_views(v@));
            Some(r)
        },
        None => None,
    }
}

/// A message exchanged between agents.
#[derive(Debug, PartialEq)]
pub struct Message {
    pub message_id: Option<String>,
    pub context_id: Option<String>,
    pub task_id: Option<String>,
    pub role: Role,
    pub parts: Vec<Part>,
    pub metadata: Option<Vec<MetaEntry>>,
}

/// The mathematical model of `Message`: texts as `Seq<char>`, lists as
/// `Seq`.
pub struct MessageView {
    pub message_id: Option<Seq<char>>,
    pub context_id: Option<Seq<char>>,
    pub task_id: Option<Seq<char>>,
    pub role: Role,
    pub parts: Seq<PartView>,
    pub metadata: Option<Seq<MetaEntryView>>,
}

impl View for Message {
    type V = MessageView;

    open spec fn view(&self) -> MessageView {
        MessageView {
            message_id: opt_text(self.message_id),
            context_id: opt_text(self.context_id),
            task_id: opt_text(self.task_id),
            role: self.role,
            parts: part_views(self.parts@),
            metadata: opt_entry_views(self.metadata),
        }
    }
}

impl Clone for Message {
    fn clone(&self) -> (r: Self)
        ensures
            r@ == self@,
    {
        Message {
            message_id: clone_opt_string(&self.message_id),
            context_id: clone_opt_string(&self.context_id),
            task_id: clone_opt_string(&self.task_id),
            role: self.role,
            parts: clone_parts(&self.parts),
            metadata: clone_metadata(&self.metadata),
        }
    }
}

/// The views of a list of messages.
pub open spec fn message_views(v: Seq<Message>) -> Seq<MessageView> {
    Seq::new(v.len(), |i: int| v[i]@)
}

/// The view of an optional message.
pub open spec fn opt_message_view(o: Option<Message>) -> Option<MessageView> {
    match o {
        Some(m) => Some(m@),
        None => None,
    }
}

/// Copies a list of messages.
pub fn clone_messages(v: &Vec<Message>) -> (r: Vec<Message>)
    ensures
        message_views(r@) == message_views(v@),
{
    let mut r: Vec<Message> = Vec::new();
    let mut i: usize = 0;
    while i < v.len()
        invariant
            i <= v.len(),
            r@.len() == i,
            forall|j: int| 0 <= j < i ==> r@[j]@ == v@[j]@,
        decreases v.len() - i,
    {
        r.push(v[i].clone());
        i += 1;
    }
    assert(message_views(r@) =~= message_views(v@));
    r
}

/// Where a task stands in its life cycle.
#[derive(Clone, Copy, Debug, PartialEq, Eq, Structural)]
pub enum TaskState {
    Submitted,
    Working,
    InputRequired,
    Completed,
    Failed,
    Canceled,
    Rejected,
    AuthRequired,
    Unknown,
}

impl TaskState {
    /// A terminal state is never left: completed, failed or canceled.
    pub open spec fn terminal(self) -> bool {
        self == TaskState::Completed || self == TaskState::Failed || self == TaskState::Canceled
    }

    /// Whether the state is terminal.
    pub fn is_terminal(&self) -> (b: bool)
        ensures
            b == self.terminal(),
    {
        match self {
            TaskState::Completed | TaskState::Failed | TaskState::Canceled => true,
            _ => false,
        }
    }

    /// The name of the state as it is printed in diagnostics.
    pub open spec fn name_text(self) -> Seq<char> {
        match self {
            TaskState::Submitted => "Submitted"@,
            TaskState::Working => "Working"@,
            TaskState::InputRequired => "InputRequired"@,
            TaskState::Completed => "Completed"@,
            TaskState::Failed => "Failed"@,
            TaskState::Canceled => "Canceled"@,
            TaskState::Rejected => "Rejected"@,
            TaskState::AuthRequired => "AuthRequired"@,
            TaskState::Unknown => "Unknown"@,
        }
    }

    /// The name of the state.
    pub fn name(&self) -> (s: &'static str)
        ensures
            s@ == self.name_text(),
    {
        match self {
            TaskState::Submitted => "Submitted",
            TaskState::Working => "Working",
            TaskState::InputRequired => "InputRequired",
            TaskState::Completed => "Completed",
            TaskState::Failed => "Failed",
            TaskState::Canceled => "Canceled",
            TaskState::Rejected => "Rejected",
            TaskState::AuthRequired => "AuthRequired",
            TaskState::Unknown => "Unknown",
        }
    }
}

/// The state of a task, with the last status message and its time.
#[derive(Debug, PartialEq)]
pub struct TaskStatus {
    pub state: TaskState,
    pub message: Option<Message>,
    pub timestamp: Option<String>,
}

/// The mathematical model of `TaskStatus`: texts as `Seq<char>`, lists as
/// `Seq`.
pub struct TaskStatusView {
    pub state: TaskState,
    pub message: Option<MessageView>,
    pub timestamp: Option<Seq<char>>,
}

impl View for TaskStatus {
    type V = TaskStatusView;

    open spec fn view(&self) -> TaskStatusView {
        TaskStatusView {
            state: self.state,
            message: opt_message_view(self.message),
            timestamp: opt_text(self.timestamp),
        }
    }
}

impl Clone for TaskStatus {
    fn clone(&self) -> (r: Self)
        ensures
            r@ == self@,
    {
        let message = match &self.message {
            Some(m) => Some(m.clone()),
            None => None,
        };
        TaskStatus { state: self.state, message, timestamp: clone_opt_string(&self.timestamp) }
    }
}

/// Something a task produced.
#[derive(Debug, PartialEq)]
pub struct Artifact {
    pub artifact_id: String,
    pub parts: Vec<Part>,
}

/// The mathematical model of `Artifact`: texts as `Seq<char>`, lists as
/// `Seq`.
pub struct ArtifactView {
    pub artifact_id: Seq<char>,
    pub parts: Seq<PartView>,
}

impl View for Artifact {
    type V = ArtifactView;

    open spec fn view(&self) -> ArtifactView {
        ArtifactView { artifact_id: self.artifact_id@, parts: part_views(self.parts@) }
    }
}

impl Clone for Artifact {
    fn clone(&self) -> (r: Self)
        ensures
            r@ == self@,
    {
        Artifact { artifact_id: self.artifact_id.clone(), parts: clone_parts(&self.parts) }
    }
}

/// The views of a list of artifacts.
pub open spec fn artifact_views(v: Seq<Artifact>) -> Seq<ArtifactView> {
    Seq::new(v.len(), |i: int| v[i]@)
}

/// Copies a list of artifacts.
pub fn clone_artifacts(v: &Vec<Artifact>) -> (r: Vec<Artifact>)
    ensures
        artifact_views(r@) == artifact_views(v@),
{
    let mut r: Vec<Artifact> = Vec::new();
    let mut i: usize = 0;
    while i < v.len()
        invariant
            i <= v.len(),
            r@.len() == i,
            forall|j: int| 0 <= j < i ==> r@[j]@ == v@[j]@,
        decreases v.len() - i,
    {
        r.push(v[i].clone());
        i += 1;
    }
    assert(artifact_views(r@) =~= artifact_views(v@));
    r
}

/// A unit of work that a peer asked for.
#[derive(Debug, PartialEq)]
pub struct Task {
    pub id: String,
    pub context_id: Option<String>,
    pub status: TaskStatus,
    pub artifacts: Vec<Artifact>,
    pub history: Vec<Message>,
    pub metadata: Option<Vec<MetaEntry>>,
}

/// The mathematical model of `Task`: texts as `Seq<char>`, lists as
/// `Seq`.
pub struct TaskView {
    pub id: Seq<char>,
    pub context_id: Option<Seq<char>>,
    pub status: TaskStatusView,
    pub artifacts: Seq<ArtifactView>,
    pub history: Seq<MessageView>,
    pub metadata: Option<Seq<MetaEntryView>>,
}

impl View for Task {
    type V = TaskView;

    open spec fn view(&self) -> TaskView {
        TaskView {
            id: self.id@,
            context_id: opt_text(self.context_id),
            status: self.status@,
            artifacts: artifact_views(self.artifacts@),
            history: message_views(self.history@),
            metadata: opt_entry_views(self.metadata),
        }
    }
}

impl Clone for Task {
    fn clone(&self) -> (r: Self)
        ensures
            r@ == self@,
    {
        Task {
            id: self.id.clone(),
            context_id: clone_opt_string(&self.context_id),
            status: self.status.clone(),
            artifacts: clone_artifacts(&self.artifacts),
            history: clone_messages(&self.history),
            metadata: clone_metadata(&self.metadata),
        }
    }
}

/// The view of an optional task.
pub open spec fn opt_task_view(o: Option<Task>) -> Option<TaskView> {
    match o {
        Some(t) => Some(t@),
        None => None,
    }
}

/// The parameters of `message/send`.
#[derive(Debug, PartialEq)]
pub struct SendMessageParams {
    pub message: Message,
}

/// The parameters of `tasks/get`.
#[derive(Debug, PartialEq)]
pub struct GetTaskParams {
    pub id: String,
}

/// The parameters of `tasks/cancel`.
#[derive(Debug, PartialEq)]
pub struct CancelTaskParams {
    pub id: String,
}

/// The parameters of a request after decoding: those of one of the three
/// methods, or the reason why they could not be decoded.
#[derive(Debug, PartialEq)]
pub enum RequestParams {
    Send(SendMessageParams),
    Get(GetTaskParams),
    Cancel(CancelTaskParams),
    Malformed(String),
}

/// A JSON-RPC 2.0 request.
#[derive(Debug, PartialEq)]
pub struct JsonRpcRequest {
    pub jsonrpc: String,
    pub method: String,
    pub params: RequestParams,
    pub id: serde_json::Value,
}

/// The error of a JSON-RPC response.
#[derive(Debug, PartialEq)]
pub struct JsonRpcError {
    pub code: i32,
    pub message: String,
    pub data: Option<serde_json::Value>,
}

/// The mathematical model of `JsonRpcError`: texts as `Seq<char>`, lists as
/// `Seq`.
pub struct JsonRpcErrorView {
    pub code: i32,
    pub message: Seq<char>,
    pub data: Option<serde_json::Value>,
}

impl View for JsonRpcError {
    type V = JsonRpcErrorView;

    open spec fn view(&self) -> JsonRpcErrorView {
        JsonRpcErrorView { code: self.code, message: self.message@, data: self.data }
    }
}

/// The view of an optional error.
pub open spec fn opt_error_view(o: Option<JsonRpcError>) -> Option<JsonRpcErrorView> {
    match o {
        Some(e) => Some(e@),
        None => None,
    }
}

/// A JSON-RPC 2.0 response: a result or an error, and the request's id.
#[derive(Debug, PartialEq)]
pub struct JsonRpcResponse {
    pub jsonrpc: String,
    pub result: Option<Task>,
    pub error: Option<JsonRpcError>,
    pub id: serde_json::Value,
}

/// The mathematical model of `JsonRpcResponse`: texts as `Seq<char>`, lists as
/// `Seq`.
pub struct JsonRpcResponseView {
    pub jsonrpc: Seq<char>,
    pub result: Option<TaskView>,
    pub error: Option<JsonRpcErrorView>,
    pub id: serde_json::Value,
}

impl View for JsonRpcResponse {
    type V = JsonRpcResponseView;

    open spec fn view(&self) -> JsonRpcResponseView {
        JsonRpcResponseView {
            jsonrpc: self.jsonrpc@,
            result: opt_task_view(self.result),
            error: opt_error_view(self.error),
            id: self.id,
        }
    }
}

/// The response that carries `task` as its result.
pub open spec fn success_view(id: serde_json::Value, task: TaskView) -> JsonRpcResponseView {
    JsonRpcResponseView { jsonrpc: JSONRPC_VERSION@, result: Some(task), error: None, id: id }
}

/// The response that carries an error with `code` and `message`.
pub open spec fn error_view(id: serde_json::Value, code: i32, message: Seq<char>) -> JsonRpcResponseView {
    JsonRpcResponseView {
        jsonrpc: JSONRPC_VERSION@,
        result: None,
        error: Some(JsonRpcErrorView { code: code, message: message, data: None }),
        id: id,
    }
}

impl JsonRpcResponse {
    /// A response with a result and no error.
    pub fn success(id: serde_json::Value, result: Task) -> (r: JsonRpcResponse)
        ensures
            r@ == success_view(id, result@),
    {
        JsonRpcResponse {
            jsonrpc: JSONRPC_VERSION.to_owned(),
            result: Some(result),
            error: None,
            id,
        }
    }

    /// A response with an error and no result.
    pub fn error(id: serde_json::Value, code: i32, message: String) -> (r: JsonRpcResponse)
        ensures
            r@ == error_view(id, code, message@),
    {
        JsonRpcResponse {
            jsonrpc: JSONRPC_VERSION.to_owned(),
            result: None,
            error: Some(JsonRpcError { code, message, data: None }),
            id,
        }
    }

    /// A response carries exactly one of a result and an error.
    pub open spec fn well_formed(&self) -> bool {
        self.result is Some <==> self.error is None
    }
}

} // verus!
