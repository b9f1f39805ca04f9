//! The task registry and the JSON-RPC dispatcher.
//!
//! The registry owns every task. A task is created by `message/send`,
//! read by `tasks/get`, changed only by `tasks/cancel`, and never removed.

use vstd::prelude::*;
use vstd::hash_map::StringHashMap;
use vstd::string::*;
use crate::ambient::{current_timestamp, fresh_id, is_instant_text, is_uuid_v4_text};
use crate::error_codes::{
    INVALID_PARAMS, INVALID_REQUEST, METHOD_NOT_FOUND, TASK_NOT_FOUND, UNSUPPORTED_OPERATION,
};
use crate::text::text_is;
use crate::boundary::{prefix_text, prefix_within};
use crate::types::{
    error_view, opt_text, success_view, JsonRpcRequest, JsonRpcResponse, JsonRpcResponseView,
    Message, MessageView, Part, PartView, RequestParams, Role, Task, TaskState, TaskStatus,
    TaskStatusView, TaskView, JSONRPC_VERSION,
};

verus! {

pub const METHOD_SEND: &'static str = "message/send";

pub const METHOD_GET: &'static str = "tasks/get";

pub const METHOD_CANCEL: &'static str = "tasks/cancel";

pub const CREATED_PREFIX: &'static str = "Task created. Processing: ";

pub const ELLIPSIS: &'static str = "...";

pub const METHOD_NOT_FOUND_PREFIX: &'static str = "Method not found: ";

pub const INVALID_PARAMS_PREFIX: &'static str = "Invalid params: ";

pub const PARAMS_MISMATCH: &'static str = "the parameters are those of another method";

pub const TASK_NOT_FOUND_PREFIX: &'static str = "Task not found: ";

pub const CANNOT_CANCEL_PREFIX: &'static str = "Cannot cancel task in ";

pub const CANNOT_CANCEL_SUFFIX: &'static str = " state";

pub const INVALID_VERSION: &'static str = "Invalid JSON-RPC version, expected 2.0";

/// The number of bytes of the user's text that a new task's status message
/// quotes at most.
pub const PREVIEW_BYTES: usize = 100;

/// The texts of the parts that have one, in order.
pub open spec fn part_texts(parts: Seq<PartView>) -> Seq<Seq<char>>
    decreases parts.len(),
{
    if parts.len() == 0 {
        Seq::empty()
    } else {
        match parts.last().text {
            Some(t) => part_texts(parts.drop_last()).push(t),
            None => part_texts(parts.drop_last()),
        }
    }
}

/// The lines joined by line feeds.
pub open spec fn join_lines(lines: Seq<Seq<char>>) -> Seq<char>
    decreases lines.len(),
{
    if lines.len() == 0 {
        Seq::empty()
    } else if lines.len() == 1 {
        lines[0]
    } else {
        join_lines(lines.drop_last()) + seq!['\n'] + lines.last()
    }
}

/// The text of a message: the texts of its parts, one per line.
pub open spec fn message_text(parts: Seq<PartView>) -> Seq<char> {
    join_lines(part_texts(parts))
}

/// The text as a status message quotes it: in full if it takes at most
/// `PREVIEW_BYTES` bytes in UTF-8, else the longest prefix of whole
/// characters within that many bytes, followed by an ellipsis.
pub open spec fn preview_text(text: Seq<char>) -> Seq<char> {
    if vstd::utf8::encode_utf8(text).len() > PREVIEW_BYTES {
        prefix_text(text, PREVIEW_BYTES as int) + ELLIPSIS@
    } else {
        text
    }
}

/// The identifiers and the time that a new task is created with.
#[derive(Debug)]
pub struct TaskStamp {
    /// The new task's identifier.
    pub task_id: String,
    /// The context for a message that names none.
    pub context_id: String,
    /// The identifier of the task's first status message.
    pub status_message_id: String,
    /// The time of creation.
    pub timestamp: Option<String>,
}

impl TaskStamp {
    /// Fresh random identifiers and the current time: each identifier is
    /// a version 4 UUID in hyphenated form, and the time, if the clock gave
    /// one, is the RFC 3339 text of an instant at or after the Unix epoch.
    pub fn fresh() -> (stamp: TaskStamp)
        ensures
            is_uuid_v4_text(stamp.task_id@),
            is_uuid_v4_text(stamp.context_id@),
            is_uuid_v4_text(stamp.status_message_id@),
            stamp.timestamp matches Some(time) ==> is_instant_text(time@),
    {
        TaskStamp {
            task_id: fresh_id(),
            context_id: fresh_id(),
            status_message_id: fresh_id(),
            timestamp: current_timestamp(),
        }
    }
}

/// The task that `message/send` creates for `message`: working, in the
/// message's context or else in the stamp's, with a status message of the
/// agent that quotes the user's text, no artifacts, and a history of
/// exactly the message.
pub open spec fn created_task(
    message: MessageView,
    task_id: Seq<char>,
    fallback_context: Seq<char>,
    status_message_id: Seq<char>,
    timestamp: Option<Seq<char>>,
) -> TaskView {
    let context = match message.context_id {
        Some(c) => c,
        None => fallback_context,
    };
    TaskView {
        id: task_id,
        context_id: Some(context),
        status: TaskStatusView {
            state: TaskState::Working,
            message: Some(
                MessageView {
                    message_id: Some(status_message_id),
                    context_id: Some(context),
                    task_id: Some(task_id),
                    role: Role::Agent,
                    parts: seq![
                        PartView {
                            text: Some(CREATED_PREFIX@ + preview_text(message_text(message.parts))),
                        },
                    ],
                    metadata: None,
                },
            ),
            timestamp: timestamp,
        },
        artifacts: Seq::empty(),
        history: seq![message],
        metadata: None,
    }
}

/// The task after cancellation at `timestamp`.
pub open spec fn canceled_task(task: TaskView, timestamp: Option<Seq<char>>) -> TaskView {
    TaskView {
        status: TaskStatusView { state: TaskState::Canceled, timestamp: timestamp, ..task.status },
        ..task
    }
}

/// Every task is filed under its own identifier, so no two tasks of the
/// registry share one.
pub open spec fn filed_by_id(tasks: Map<Seq<char>, TaskView>) -> bool {
    forall|k: Seq<char>| tasks.contains_key(k) ==> (#[trigger] tasks[k]).id == k
}

/// Why a task operation was refused.
#[derive(Clone, Copy, Debug, PartialEq, Eq, Structural)]
pub enum TaskError {
    /// No task has the identifier.
    NotFound,
    /// The task is in the given terminal state, which it never leaves.
    UnsupportedOperation(TaskState),
}

/// The registry of tasks, by identifier.
pub struct TaskStore {
    tasks: StringHashMap<Task>,
}

impl View for TaskStore {
    type V = Map<Seq<char>, TaskView>;

    closed spec fn view(&self) -> Map<Seq<char>, TaskView> {
        self.tasks@.map_values(|t: Task| t@)
    }
}

/// An empty registry.
pub fn new_task_store() -> (store: TaskStore)
    ensures
        store@ == Map::<Seq<char>, TaskView>::empty(),
        store.well_formed(),
{
    let store = TaskStore { tasks: StringHashMap::new() };
    assert(store@ =~= Map::<Seq<char>, TaskView>::empty());
    store
}

/// The user's text of a message: the texts of its parts, one per line.
pub fn user_text(parts: &Vec<Part>) -> (text: String)
    ensures
        text@ == message_text(crate::types::part_views(parts@)),
{
    let ghost views = crate::types::part_views(parts@);
    let mut text = String::new();
    let mut first = true;
    let mut i: usize = 0;
    assert(views.take(0) =~= Seq::empty());
    while i < parts.len()
        invariant
            i <= parts.len(),
            views == crate::types::part_views(parts@),
            first == (part_texts(views.take(i as int)).len() == 0),
            text@ == join_lines(part_texts(views.take(i as int))),
        decreases parts.len() - i,
    {
        proof {
            assert(views.take(i + 1).drop_last() =~= views.take(i as int));
            assert(views.take(i + 1).last() == parts@[i as int]@);
        }
        match &parts[i].text {
            Some(t) => {
                let ghost before = part_texts(views.take(i as int));
                if first {
                    first = false;
                    text.append(t.as_str());
                    assert(before.push(t@).drop_last() =~= before);
                    assert(text@ =~= join_lines(before.push(t@)));
                } else {
                    proof {
                        reveal_strlit("\n");
                    }
                    text.append("\n");
                    text.append(t.as_str());
                    assert(before.push(t@).drop_last() =~= before);
                    assert("\n"@ =~= seq!['\n']);
                    assert(text@ =~= join_lines(before.push(t@)));
                }
            },
            None => {},
        }
        i += 1;
    }
    assert(views.take(parts.len() as int) =~= views);
    text
}

/// The text as a status message quotes it.
pub fn preview(text: &str) -> (quoted: String)
    ensures
        quoted@ == preview_text(text@),
{
    if text.as_bytes().len() > PREVIEW_BYTES {
        let mut quoted = prefix_within(text, PREVIEW_BYTES).to_owned();
        quoted.append(ELLIPSIS);
        quoted
    } else {
        text.to_owned()
    }
}

impl TaskStore {
    /// The registry's invariant: every task is filed under its own
    /// identifier. `new_task_store` establishes it and every operation
    /// keeps it.
    pub open spec fn well_formed(&self) -> bool {
        filed_by_id(self@)
    }

    /// The number of tasks.
    pub fn len(&self) -> (n: usize)
        ensures
            n == self@.len(),
    {
        assert(self@.dom() =~= self.tasks@.dom());
        self.tasks.len()
    }

    /// Whether a task has the identifier.
    pub fn contains(&self, id: &str) -> (b: bool)
        ensures
            b == self@.contains_key(id@),
    {
        self.tasks.contains_key(id)
    }

    /// The task with the identifier, or `NotFound`.
    pub fn get_task(&self, id: &str) -> (r: Result<Task, TaskError>)
        requires
            self.well_formed(),
        ensures
            match r {
                Ok(task) => self@.contains_key(id@) && task@ == self@[id@] && task@.id == id@,
                Err(e) => !self@.contains_key(id@) && e == TaskError::NotFound,
            },
    {
        match self.tasks.get(id) {
            Some(task) => Ok(task.clone()),
            None => Err(TaskError::NotFound),
        }
    }

    /// Creates the task for `message` under the stamp's identifiers and
    /// stores it. A task that had the same identifier is replaced.
    pub fn create_task(&mut self, message: Message, stamp: TaskStamp) -> (task: Task)
        requires
            old(self).well_formed(),
        ensures
            task@ == created_task(
                message@,
                stamp.task_id@,
                stamp.context_id@,
                stamp.status_message_id@,
                opt_text(stamp.timestamp),
            ),
            final(self)@ == old(self)@.insert(stamp.task_id@, task@),
            final(self).well_formed(),
    {
        let text = user_text(&message.parts);
        let mut note = String::from_str(CREATED_PREFIX);
        note.append(preview(text.as_str()).as_str());
        let context_id = match &message.context_id {
            Some(c) => c.clone(),
            None => stamp.context_id,
        };
        let mut parts: Vec<Part> = Vec::new();
        parts.push(Part::text(note.as_str()));
        let mut history: Vec<Message> = Vec::new();
        let ghost message_view = message@;
        history.push(message);
        let task = Task {
            id: stamp.task_id.clone(),
            context_id: Some(context_id.clone()),
            status: TaskStatus {
                state: TaskState::Working,
                message: Some(
                    Message {
                        message_id: Some(stamp.status_message_id),
                        context_id: Some(context_id),
                        task_id: Some(stamp.task_id.clone()),
                        role: Role::Agent,
                        parts,
                        metadata: None,
                    },
                ),
                timestamp: stamp.timestamp,
            },
            artifacts: Vec::new(),
            history,
            metadata: None,
        };
        proof {
            assert(task@.status.message.unwrap().parts =~= seq![
                PartView { text: Some(CREATED_PREFIX@ + preview_text(message_text(message_view.parts))) },
            ]);
            assert(task@.artifacts =~= Seq::empty());
            assert(task@.history =~= seq![message_view]);
        }
        let copy = task.clone();
        self.tasks.insert(stamp.task_id, task);
        assert(self@ =~= old(self)@.insert(copy@.id, copy@));
        copy
    }

    /// Cancels the task with the identifier: a task that is not in a
    /// terminal state becomes canceled as of `timestamp`; a task in a
    /// terminal state stays as it is.
    pub fn cancel_task(&mut self, id: &str, timestamp: Option<String>) -> (r: Result<
        Task,
        TaskError,
    >)
        requires
            old(self).well_formed(),
        ensures
            final(self).well_formed(),
            match r {
                Ok(task) => {
                    &&& old(self)@.contains_key(id@)
                    &&& !old(self)@[id@].status.state.terminal()
                    &&& task@ == canceled_task(old(self)@[id@], opt_text(timestamp))
                    &&& final(self)@ == old(self)@.insert(id@, task@)
                },
                Err(TaskError::NotFound) => {
                    &&& !old(self)@.contains_key(id@)
                    &&& final(self)@ == old(self)@
                },
                Err(TaskError::UnsupportedOperation(state)) => {
                    &&& old(self)@.contains_key(id@)
                    &&& old(self)@[id@].status.state == state
                    &&& state.terminal()
                    &&& final(self)@ == old(self)@
                },
            },
    {
        let found = match self.tasks.get(id) {
            Some(task) => Some(task.clone()),
            None => None,
        };
        match found {
            Some(task) => {
                if task.status.state.is_terminal() {
                    Err(TaskError::UnsupportedOperation(task.status.state))
                } else {
                    let mut task = task;
                    task.status.state = TaskState::Canceled;
                    task.status.timestamp = timestamp;
                    let copy = task.clone();
                    self.tasks.insert(id.to_owned(), task);
                    assert(self@ =~= old(self)@.insert(id@, copy@));
                    Ok(copy)
                }
            },
            None => Err(TaskError::NotFound),
        }
    }
}

/// The operations that the dispatcher knows.
#[derive(Clone, Copy, Debug, PartialEq, Eq, Structural)]
pub enum Method {
    SendMessage,
    GetTask,
    CancelTask,
    Unknown,
}

/// The operation that a method name stands for.
pub open spec fn method_of_text(name: Seq<char>) -> Method {
    if name == METHOD_SEND@ {
        Method::SendMessage
    } else if name == METHOD_GET@ {
        Method::GetTask
    } else if name == METHOD_CANCEL@ {
        Method::CancelTask
    } else {
        Method::Unknown
    }
}

/// The operation that a method name stands for.
pub fn method_of(name: &str) -> (m: Method)
    ensures
        m == method_of_text(name@),
{
    if text_is(name, METHOD_SEND) {
        Method::SendMessage
    } else if text_is(name, METHOD_GET) {
        Method::GetTask
    } else if text_is(name, METHOD_CANCEL) {
        Method::CancelTask
    } else {
        Method::Unknown
    }
}

/// What an invalid-parameters error says: the decoder's reason, or that the
/// parameters belong to another method.
pub open spec fn invalid_params_text(params: RequestParams) -> Seq<char> {
    INVALID_PARAMS_PREFIX@ + match params {
        RequestParams::Malformed(reason) => reason@,
        _ => PARAMS_MISMATCH@,
    }
}

/// The response that refuses the parameters.
pub open spec fn invalid_params_view(id: serde_json::Value, params: RequestParams) -> JsonRpcResponseView {
    error_view(id, INVALID_PARAMS, invalid_params_text(params))
}

/// What a refused cancellation says.
pub open spec fn cannot_cancel_text(state: TaskState) -> Seq<char> {
    CANNOT_CANCEL_PREFIX@ + state.name_text() + CANNOT_CANCEL_SUFFIX@
}

/// The response to `tasks/get` on the given registry.
pub open spec fn get_response(
    store: Map<Seq<char>, TaskView>,
    id: serde_json::Value,
    params: RequestParams,
) -> JsonRpcResponseView {
    match params {
        RequestParams::Get(p) => if store.contains_key(p.id@) {
            success_view(id, store[p.id@])
        } else {
            error_view(id, TASK_NOT_FOUND, TASK_NOT_FOUND_PREFIX@ + p.id@)
        },
        _ => invalid_params_view(id, params),
    }
}

/// The response to `tasks/cancel` at `timestamp` on the given registry.
pub open spec fn cancel_response(
    store: Map<Seq<char>, TaskView>,
    id: serde_json::Value,
    params: RequestParams,
    timestamp: Option<Seq<char>>,
) -> JsonRpcResponseView {
    match params {
        RequestParams::Cancel(p) => if !store.contains_key(p.id@) {
            error_view(id, TASK_NOT_FOUND, TASK_NOT_FOUND_PREFIX@ + p.id@)
        } else if store[p.id@].status.state.terminal() {
            error_view(id, UNSUPPORTED_OPERATION, cannot_cancel_text(store[p.id@].status.state))
        } else {
            success_view(id, canceled_task(store[p.id@], timestamp))
        },
        _ => invalid_params_view(id, params),
    }
}

/// The registry after `tasks/cancel` at `timestamp`.
pub open spec fn store_after_cancel(
    store: Map<Seq<char>, TaskView>,
    params: RequestParams,
    timestamp: Option<Seq<char>>,
) -> Map<Seq<char>, TaskView> {
    match params {
        RequestParams::Cancel(p) => if store.contains_key(p.id@)
            && !store[p.id@].status.state.terminal() {
            store.insert(p.id@, canceled_task(store[p.id@], timestamp))
        } else {
            store
        },
        _ => store,
    }
}

/// The time that a response's task carries, if it carries a task.
pub open spec fn time_of(r: JsonRpcResponseView) -> Option<Seq<char>> {
    match r.result {
        Some(task) => task.status.timestamp,
        None => None,
    }
}

/// `r` answers `message/send`: for a message, it carries the task created
/// for it under the identifiers and the time that the task shows, and the
/// registry holds that task in addition; for other parameters it refuses
/// them and the registry is as before.
pub open spec fn answers_send(
    r: JsonRpcResponseView,
    id: serde_json::Value,
    params: RequestParams,
    before: Map<Seq<char>, TaskView>,
    after: Map<Seq<char>, TaskView>,
) -> bool {
    match params {
        RequestParams::Send(p) => {
            &&& r.result matches Some(task)
            &&& task.context_id matches Some(context)
            &&& task.status.message matches Some(note)
            &&& note.message_id matches Some(note_id)
            &&& r == success_view(
                id,
                created_task(p.message@, task.id, context, note_id, task.status.timestamp),
            )
            &&& after == before.insert(task.id, task)
        },
        _ => r == invalid_params_view(id, params) && after == before,
    }
}

/// The response that refuses the parameters.
fn refuse_params(id: serde_json::Value, params: RequestParams) -> (r: JsonRpcResponse)
    ensures
        r@ == invalid_params_view(id, params),
{
    let mut text = String::from_str(INVALID_PARAMS_PREFIX);
    match &params {
        RequestParams::Malformed(reason) => {
            text.append(reason.as_str());
        },
        _ => {
            text.append(PARAMS_MISMATCH);
        },
    }
    JsonRpcResponse::error(id, INVALID_PARAMS, text)
}

/// The response that reports an unknown task.
fn task_not_found(id: serde_json::Value, task_id: &str) -> (r: JsonRpcResponse)
    ensures
        r@ == error_view(id, TASK_NOT_FOUND, TASK_NOT_FOUND_PREFIX@ + task_id@),
{
    let mut text = String::from_str(TASK_NOT_FOUND_PREFIX);
    text.append(task_id);
    JsonRpcResponse::error(id, TASK_NOT_FOUND, text)
}

/// Handles `message/send`: creates a task for the message under fresh
/// identifiers and stores it. Parameters that are not a message are
/// refused and leave the registry untouched.
pub fn handle_send_message(id: serde_json::Value, params: RequestParams, store: &mut TaskStore) -> (r:
    JsonRpcResponse)
    requires
        old(store).well_formed(),
    ensures
        final(store).well_formed(),
        answers_send(r@, id, params, old(store)@, final(store)@),
        r.id == id,
        r.well_formed(),
{
    match params {
        RequestParams::Send(p) => {
            let task = store.create_task(p.message, TaskStamp::fresh());
            JsonRpcResponse::success(id, task)
        },
        other => refuse_params(id, other),
    }
}

/// Handles `tasks/get`: the task with the identifier, or a task-not-found
/// error. The registry is only read.
pub fn handle_get_task(id: serde_json::Value, params: RequestParams, store: &TaskStore) -> (r:
    JsonRpcResponse)
    requires
        store.well_formed(),
    ensures
        r@ == get_response(store@, id, params),
        r.id == id,
        r.well_formed(),
{
    match params {
        RequestParams::Get(p) => match store.get_task(p.id.as_str()) {
            Ok(task) => JsonRpcResponse::success(id, task),
            Err(_) => task_not_found(id, p.id.as_str()),
        },
        other => refuse_params(id, other),
    }
}

/// Cancels as of `timestamp`: a task that is not in a terminal state
/// becomes canceled; a task in a terminal state is left as it is and the
/// operation is reported as unsupported; an unknown task is reported as not
/// found.
pub fn cancel_at(
    id: serde_json::Value,
    params: RequestParams,
    store: &mut TaskStore,
    timestamp: Option<String>,
) -> (r: JsonRpcResponse)
    requires
        old(store).well_formed(),
    ensures
        final(store).well_formed(),
        r@ == cancel_response(old(store)@, id, params, opt_text(timestamp)),
        final(store)@ == store_after_cancel(old(store)@, params, opt_text(timestamp)),
        r.id == id,
        r.well_formed(),
{
    match params {
        RequestParams::Cancel(p) => match store.cancel_task(p.id.as_str(), timestamp) {
            Ok(task) => JsonRpcResponse::success(id, task),
            Err(TaskError::NotFound) => task_not_found(id, p.id.as_str()),
            Err(TaskError::UnsupportedOperation(state)) => {
                let mut text = String::from_str(CANNOT_CANCEL_PREFIX);
                text.append(state.name());
                text.append(CANNOT_CANCEL_SUFFIX);
                JsonRpcResponse::error(id, UNSUPPORTED_OPERATION, text)
            },
        },
        other => refuse_params(id, other),
    }
}

/// Handles `tasks/cancel` as of now.
pub fn handle_cancel_task(id: serde_json::Value, params: RequestParams, store: &mut TaskStore) -> (r:
    JsonRpcResponse)
    requires
        old(store).well_formed(),
    ensures
        final(store).well_formed(),
        r@ == cancel_response(old(store)@, id, params, time_of(r@)),
        final(store)@ == store_after_cancel(old(store)@, params, time_of(r@)),
        r.id == id,
        r.well_formed(),
{
    cancel_at(id, params, store, current_timestamp())
}

/// `r` answers the request: by the handler of the request's method, or, for
/// a method that is not known, with a method-not-found error that names it
/// and leaves the registry as it was.
pub open spec fn answers_request(
    r: JsonRpcResponseView,
    req: JsonRpcRequest,
    before: Map<Seq<char>, TaskView>,
    after: Map<Seq<char>, TaskView>,
) -> bool {
    match method_of_text(req.method@) {
        Method::SendMessage => answers_send(r, req.id, req.params, before, after),
        Method::GetTask => {
            &&& r == get_response(before, req.id, req.params)
            &&& after == before
        },
        Method::CancelTask => {
            &&& r == cancel_response(before, req.id, req.params, time_of(r))
            &&& after == store_after_cancel(before, req.params, time_of(r))
        },
        Method::Unknown => {
            &&& r == error_view(req.id, METHOD_NOT_FOUND, METHOD_NOT_FOUND_PREFIX@ + req.method@)
            &&& after == before
        },
    }
}

/// Routes a request to the handler of its method. A method that is not
/// known is answered with a method-not-found error that names it. Every
/// response carries the request's id and exactly one of a result and an
/// error.
pub fn dispatch(req: JsonRpcRequest, store: &mut TaskStore) -> (r: JsonRpcResponse)
    requires
        old(store).well_formed(),
    ensures
        final(store).well_formed(),
        r.id == req.id,
        r.well_formed(),
        answers_request(r@, req, old(store)@, final(store)@),
{
    match method_of(req.method.as_str()) {
        Method::SendMessage => handle_send_message(req.id, req.params, store),
        Method::GetTask => handle_get_task(req.id, req.params, store),
        Method::CancelTask => handle_cancel_task(req.id, req.params, store),
        Method::Unknown => {
            let mut text = String::from_str(METHOD_NOT_FOUND_PREFIX);
            text.append(req.method.as_str());
            JsonRpcResponse::error(req.id, METHOD_NOT_FOUND, text)
        },
    }
}

/// `r` answers the request at the gateway: a request that does not declare
/// JSON-RPC 2.0 is refused as invalid and leaves the registry as it was;
/// any other is answered as `answers_request` says.
pub open spec fn answers_jsonrpc(
    r: JsonRpcResponseView,
    req: JsonRpcRequest,
    before: Map<Seq<char>, TaskView>,
    after: Map<Seq<char>, TaskView>,
) -> bool {
    if req.jsonrpc@ == JSONRPC_VERSION@ {
        answers_request(r, req, before, after)
    } else {
        r == error_view(req.id, INVALID_REQUEST, INVALID_VERSION@) && after == before
    }
}

/// Answers a request: one that does not declare JSON-RPC 2.0 is refused as
/// invalid, any other is dispatched.
pub fn handle_jsonrpc(req: JsonRpcRequest, store: &mut TaskStore) -> (r: JsonRpcResponse)
    requires
        old(store).well_formed(),
    ensures
        final(store).well_formed(),
        r.id == req.id,
        r.well_formed(),
        answers_jsonrpc(r@, req, old(store)@, final(store)@),
{
    if !text_is(req.jsonrpc.as_str(), JSONRPC_VERSION) {
        JsonRpcResponse::error(req.id, INVALID_REQUEST, String::from_str(INVALID_VERSION))
    } else {
        dispatch(req, store)
    }
}

/// How a request has to hold the registry while it is answered.
#[derive(Clone, Copy, Debug, PartialEq, Eq, Structural)]
pub enum Access {
    /// The request only reads the registry, or does not touch it.
    Shared,
    /// The request may change the registry.
    Exclusive,
}

/// The access that a request needs: exclusive to create a task for a
/// message and to cancel a task, shared for everything else.
pub open spec fn access_needed(req: JsonRpcRequest) -> Access {
    if req.jsonrpc@ != JSONRPC_VERSION@ {
        Access::Shared
    } else if method_of_text(req.method@) == Method::SendMessage && req.params is Send {
        Access::Exclusive
    } else if method_of_text(req.method@) == Method::CancelTask && req.params is Cancel {
        Access::Exclusive
    } else {
        Access::Shared
    }
}

/// The access that a request needs.
pub fn access_of(req: &JsonRpcRequest) -> (access: Access)
    ensures
        access == access_needed(*req),
{
    if !text_is(req.jsonrpc.as_str(), JSONRPC_VERSION) {
        return Access::Shared;
    }
    match (method_of(req.method.as_str()), &req.params) {
        (Method::SendMessage, RequestParams::Send(_)) => Access::Exclusive,
        (Method::CancelTask, RequestParams::Cancel(_)) => Access::Exclusive,
        _ => Access::Shared,
    }
}

/// Answers a request that needs only shared access, as `handle_jsonrpc`
/// would, without a way to change the registry.
pub fn answer_shared(req: JsonRpcRequest, store: &TaskStore) -> (r: JsonRpcResponse)
    requires
        store.well_formed(),
        access_needed(req) == Access::Shared,
    ensures
        r.id == req.id,
        r.well_formed(),
        answers_jsonrpc(r@, req, store@, store@),
{
    if !text_is(req.jsonrpc.as_str(), JSONRPC_VERSION) {
        return JsonRpcResponse::error(req.id, INVALID_REQUEST, String::from_str(INVALID_VERSION));
    }
    match method_of(req.method.as_str()) {
        Method::GetTask => handle_get_task(req.id, req.params, store),
        Method::Unknown => {
            let mut text = String::from_str(METHOD_NOT_FOUND_PREFIX);
            text.append(req.method.as_str());
            JsonRpcResponse::error(req.id, METHOD_NOT_FOUND, text)
        },
        _ => refuse_params(req.id, req.params),
    }
}

/// A request that needs only shared access leaves the registry as it was,
/// whoever answers it.
pub proof fn lemma_shared_access_changes_nothing(
    r: JsonRpcResponseView,
    req: JsonRpcRequest,
    before: Map<Seq<char>, TaskView>,
    after: Map<Seq<char>, TaskView>,
)
    requires
        access_needed(req) == Access::Shared,
        answers_jsonrpc(r, req, before, after),
    ensures
        after == before,
{
}

/// A task created under an identifier that the registry does not hold yet
/// is working, has a history of exactly the submitted message, and is the
/// only task of the registry with its identifier; every other task is as it
/// was.
pub proof fn lemma_created_task_is_new(
    store: Map<Seq<char>, TaskView>,
    message: MessageView,
    task_id: Seq<char>,
    fallback_context: Seq<char>,
    status_message_id: Seq<char>,
    timestamp: Option<Seq<char>>,
)
    requires
        filed_by_id(store),
        !store.contains_key(task_id),
    ensures
        ({
            let task = created_task(
                message,
                task_id,
                fallback_context,
                status_message_id,
                timestamp,
            );
            let after = store.insert(task_id, task);
            &&& task.id == task_id
            &&& task.status.state == TaskState::Working
            &&& task.history == seq![message]
            &&& filed_by_id(after)
            &&& after.dom() == store.dom().insert(task_id)
            &&& forall|k: Seq<char>|
                store.contains_key(k) ==> after[k] == store[k] && (#[trigger] after[k]).id
                    != task.id
        }),
{
    let task = created_task(message, task_id, fallback_context, status_message_id, timestamp);
    let after = store.insert(task_id, task);
    assert(after.dom() =~= store.dom().insert(task_id));
    assert forall|k: Seq<char>| store.contains_key(k) implies after[k] == store[k] && (
    #[trigger] after[k]).id != task.id by {
        assert(store[k].id == k);
    }
}

/// No two tasks of a registry share an identifier.
pub proof fn lemma_ids_are_unique(store: Map<Seq<char>, TaskView>, a: Seq<char>, b: Seq<char>)
    requires
        filed_by_id(store),
        store.contains_key(a),
        store.contains_key(b),
        store[a].id == store[b].id,
    ensures
        a == b,
{
}

/// Cancelling a task that is not in a terminal state succeeds exactly
/// once: the first cancellation returns the task as canceled, and any
/// cancellation after it is refused as unsupported and changes nothing.
pub proof fn lemma_cancel_succeeds_once(
    store: Map<Seq<char>, TaskView>,
    params: RequestParams,
    first_id: serde_json::Value,
    first_time: Option<Seq<char>>,
    second_id: serde_json::Value,
    second_time: Option<Seq<char>>,
)
    requires
        params matches RequestParams::Cancel(p) && store.contains_key(p.id@) && !store[p.id@].status.state.terminal(),
    ensures
        ({
            let task = params->Cancel_0.id@;
            let after = store_after_cancel(store, params, first_time);
            &&& cancel_response(store, first_id, params, first_time) == success_view(
                first_id,
                canceled_task(store[task], first_time),
            )
            &&& after[task].status.state == TaskState::Canceled
            &&& cancel_response(after, second_id, params, second_time) == error_view(
                second_id,
                UNSUPPORTED_OPERATION,
                cannot_cancel_text(TaskState::Canceled),
            )
            &&& store_after_cancel(after, params, second_time) == after
        }),
{
}

/// Cancelling a task in a terminal state is refused as unsupported and
/// leaves the registry unchanged; cancelling an unknown task is refused as
/// not found and leaves the registry unchanged.
pub proof fn lemma_refused_cancel_changes_nothing(
    store: Map<Seq<char>, TaskView>,
    params: RequestParams,
    id: serde_json::Value,
    timestamp: Option<Seq<char>>,
)
    requires
        params matches RequestParams::Cancel(p) && (!store.contains_key(p.id@)
            || store[p.id@].status.state.terminal()),
    ensures
        store_after_cancel(store, params, timestamp) == store,
        cancel_response(store, id, params, timestamp).result is None,
        cancel_response(store, id, params, timestamp).error matches Some(e) && (e.code
            == UNSUPPORTED_OPERATION <==> store.contains_key(params->Cancel_0.id@)) && (e.code
            == TASK_NOT_FOUND <==> !store.contains_key(params->Cancel_0.id@)),
{
}

/// A task in a terminal state never leaves it: whatever is cancelled, and
/// whatever task is created under an identifier not yet in use, the task
/// stays as it is.
pub proof fn lemma_terminal_task_stays(
    store: Map<Seq<char>, TaskView>,
    task: Seq<char>,
    params: RequestParams,
    timestamp: Option<Seq<char>>,
    created: TaskView,
)
    requires
        store.contains_key(task),
        store[task].status.state.terminal(),
        !store.contains_key(created.id),
    ensures
        store_after_cancel(store, params, timestamp).contains_key(task),
        store_after_cancel(store, params, timestamp)[task] == store[task],
        store.insert(created.id, created).contains_key(task),
        store.insert(created.id, created)[task] == store[task],
{
}

/// `tasks/get` on an identifier that the registry does not hold is
/// answered with a task-not-found error that names the identifier.
pub proof fn lemma_get_unknown(
    store: Map<Seq<char>, TaskView>,
    id: serde_json::Value,
    params: RequestParams,
)
    requires
        params matches RequestParams::Get(p) && !store.contains_key(p.id@),
    ensures
        get_response(store, id, params) == error_view(
            id,
            TASK_NOT_FOUND,
            TASK_NOT_FOUND_PREFIX@ + params->Get_0.id@,
        ),
{
}

} // verus!
