use a2a_core::handler::{dispatch, new_task_store, TaskStamp, TaskStore};
use a2a_core::types::{
    GetTaskParams, CancelTaskParams, JsonRpcRequest, Message, Part, RequestParams, Role,
    SendMessageParams, TaskState,
};
use a2a_core::handler::{cancel_at, handle_get_task, handle_jsonrpc, method_of, preview, user_text, Method};
use a2a_core::handler::{access_of, answer_shared, Access};

fn user_message(text: &str) -> Message {
    Message {
        message_id: None,
        context_id: None,
        task_id: None,
        role: Role::User,
        parts: vec![Part::text(text)],
        metadata: None,
    }
}

fn make_send_request() -> JsonRpcRequest {
    JsonRpcRequest {
        jsonrpc: "2.0".to_string(),
        method: "message/send".to_string(),
        params: RequestParams::Send(SendMessageParams { message: user_message("Hello, agent!") }),
        id: serde_json::Value::from(1),
    }
}

#[test]
fn test_send_message() {
    let mut store = new_task_store();
    let req = make_send_request();
    let resp = dispatch(req, &mut store);

    assert!(resp.result.is_some());
    assert!(resp.error.is_none());

    let result = resp.result.expect("has result");
    assert!(!result.id.is_empty());
    assert_eq!(result.status.state, TaskState::Working);

    // Task should be stored
    assert_eq!(store.len(), 1);
}

#[test]
fn test_get_task_not_found() {
    let mut store = new_task_store();
    let req = JsonRpcRequest {
        jsonrpc: "2.0".to_string(),
        method: "tasks/get".to_string(),
        params: RequestParams::Get(GetTaskParams { id: "nonexistent".to_string() }),
        id: serde_json::Value::from(2),
    };
    let resp = dispatch(req, &mut store);
    assert!(resp.error.is_some());
    assert_eq!(resp.error.as_ref().expect("err").code, -32001);
}

#[test]
fn test_cancel_task() {
    let mut store = new_task_store();

    // First create a task
    let send_req = make_send_request();
    let send_resp = dispatch(send_req, &mut store);
    let task_id = send_resp.result.as_ref().map(|t| t.id.clone()).expect("task id");

    // Then cancel it
    let cancel_req = JsonRpcRequest {
        jsonrpc: "2.0".to_string(),
        method: "tasks/cancel".to_string(),
        params: RequestParams::Cancel(CancelTaskParams { id: task_id }),
        id: serde_json::Value::from(3),
    };
    let cancel_resp = dispatch(cancel_req, &mut store);
    assert!(cancel_resp.result.is_some());

    let result = cancel_resp.result.expect("result");
    assert_eq!(result.status.state, TaskState::Canceled);
}

#[test]
fn test_unknown_method() {
    let mut store = new_task_store();
    let req = JsonRpcRequest {
        jsonrpc: "2.0".to_string(),
        method: "unknown/method".to_string(),
        params: RequestParams::Malformed(String::new()),
        id: serde_json::Value::from(99),
    };
    let resp = dispatch(req, &mut store);
    assert!(resp.error.is_some());
    assert_eq!(resp.error.as_ref().expect("err").code, -32601);
    assert_eq!(resp.id, serde_json::Value::from(99));
    assert_eq!(resp.error.as_ref().expect("err").message, "Method not found: unknown/method");
    assert_eq!(store.len(), 0);
}

fn stamp(task: &str) -> TaskStamp {
    TaskStamp {
        task_id: task.to_string(),
        context_id: "ctx-fallback".to_string(),
        status_message_id: "note-1".to_string(),
        timestamp: Some("2024-01-01T00:00:00+00:00".to_string()),
    }
}

fn store_with(task: &str, text: &str) -> TaskStore {
    let mut store = new_task_store();
    store.create_task(user_message(text), stamp(task));
    store
}

#[test]
fn created_task_is_working_with_history_of_the_message() {
    let mut store = new_task_store();
    let task = store.create_task(user_message("Hello, agent!"), stamp("t-1"));
    assert_eq!(task.id, "t-1");
    assert_eq!(task.context_id.as_deref(), Some("ctx-fallback"));
    assert_eq!(task.status.state, TaskState::Working);
    assert_eq!(task.status.timestamp.as_deref(), Some("2024-01-01T00:00:00+00:00"));
    assert_eq!(task.history, vec![user_message("Hello, agent!")]);
    assert!(task.artifacts.is_empty());
    let note = task.status.message.as_ref().unwrap();
    assert_eq!(note.role, Role::Agent);
    assert_eq!(note.message_id.as_deref(), Some("note-1"));
    assert_eq!(note.task_id.as_deref(), Some("t-1"));
    assert_eq!(note.parts[0].text.as_deref(), Some("Task created. Processing: Hello, agent!"));
    assert_eq!(store.get_task("t-1").unwrap(), task);
    assert_eq!(store.len(), 1);
}

#[test]
fn cancel_succeeds_once_then_is_unsupported() {
    let mut store = store_with("t-1", "work");
    let first = store.cancel_task("t-1", Some("later".to_string()));
    let canceled = first.expect("first cancel");
    assert_eq!(canceled.status.state, TaskState::Canceled);
    assert_eq!(canceled.status.timestamp.as_deref(), Some("later"));
    let second = store.cancel_task("t-1", Some("even later".to_string()));
    assert_eq!(
        second,
        Err(a2a_core::handler::TaskError::UnsupportedOperation(TaskState::Canceled))
    );
    assert_eq!(store.get_task("t-1").unwrap(), canceled);
}

fn request(method: &str, params: RequestParams, id: i64) -> JsonRpcRequest {
    JsonRpcRequest {
        jsonrpc: "2.0".to_string(),
        method: method.to_string(),
        params,
        id: serde_json::Value::from(id),
    }
}

#[test]
fn method_names_are_matched_exactly() {
    assert_eq!(method_of("message/send"), Method::SendMessage);
    assert_eq!(method_of("tasks/get"), Method::GetTask);
    assert_eq!(method_of("tasks/cancel"), Method::CancelTask);
    assert_eq!(method_of("tasks/Cancel"), Method::Unknown);
    assert_eq!(method_of(""), Method::Unknown);
}

#[test]
fn malformed_params_are_refused_without_touching_the_registry() {
    for method in ["message/send", "tasks/get", "tasks/cancel"] {
        let mut store = store_with("t-1", "work");
        let resp = dispatch(
            request(method, RequestParams::Malformed("missing field `id`".to_string()), 5),
            &mut store,
        );
        let err = resp.error.expect("error");
        assert!(resp.result.is_none());
        assert_eq!(err.code, -32602);
        assert_eq!(err.message, "Invalid params: missing field `id`");
        assert_eq!(resp.id, serde_json::Value::from(5));
        assert_eq!(store.len(), 1);
        assert_eq!(store.get_task("t-1").unwrap().status.state, TaskState::Working);
    }
}

#[test]
fn params_of_another_method_are_refused() {
    let mut store = new_task_store();
    let resp = dispatch(
        request("message/send", RequestParams::Get(GetTaskParams { id: "t".to_string() }), 1),
        &mut store,
    );
    assert_eq!(resp.error.expect("error").code, -32602);
    assert_eq!(store.len(), 0);
}

#[test]
fn get_returns_the_stored_task() {
    let store = store_with("t-1", "work");
    let resp = handle_get_task(
        serde_json::Value::from("abc"),
        RequestParams::Get(GetTaskParams { id: "t-1".to_string() }),
        &store,
    );
    assert_eq!(resp.jsonrpc, "2.0");
    assert_eq!(resp.id, serde_json::Value::from("abc"));
    assert_eq!(resp.result.expect("task"), store.get_task("t-1").unwrap());
    let missing = handle_get_task(
        serde_json::Value::Null,
        RequestParams::Get(GetTaskParams { id: "t-2".to_string() }),
        &store,
    );
    let err = missing.error.expect("error");
    assert_eq!(err.code, -32001);
    assert_eq!(err.message, "Task not found: t-2");
    assert_eq!(missing.id, serde_json::Value::Null);
}

#[test]
fn cancel_of_a_terminal_task_is_unsupported_and_changes_nothing() {
    let mut store = store_with("t-1", "work");
    let cancel = || RequestParams::Cancel(CancelTaskParams { id: "t-1".to_string() });
    let first = cancel_at(serde_json::Value::from(1), cancel(), &mut store, Some("t1".to_string()));
    assert_eq!(first.result.as_ref().expect("task").status.state, TaskState::Canceled);
    let stored = store.get_task("t-1").unwrap();
    let second = cancel_at(serde_json::Value::from(2), cancel(), &mut store, Some("t2".to_string()));
    let err = second.error.expect("error");
    assert_eq!(err.code, -32004);
    assert_eq!(err.message, "Cannot cancel task in Canceled state");
    assert_eq!(store.get_task("t-1").unwrap(), stored);
    assert_eq!(stored.status.timestamp.as_deref(), Some("t1"));
    let unknown = cancel_at(
        serde_json::Value::from(3),
        RequestParams::Cancel(CancelTaskParams { id: "nope".to_string() }),
        &mut store,
        None,
    );
    assert_eq!(unknown.error.expect("error").code, -32001);
    assert_eq!(store.len(), 1);
}

#[test]
fn wrong_protocol_version_is_an_invalid_request() {
    let mut store = new_task_store();
    let mut req = make_send_request();
    req.jsonrpc = "1.0".to_string();
    let resp = handle_jsonrpc(req, &mut store);
    let err = resp.error.expect("error");
    assert_eq!(err.code, -32600);
    assert_eq!(err.message, "Invalid JSON-RPC version, expected 2.0");
    assert_eq!(store.len(), 0);
    let resp = handle_jsonrpc(make_send_request(), &mut store);
    assert!(resp.result.is_some());
    assert_eq!(store.len(), 1);
}

#[test]
fn sent_task_takes_the_context_of_the_message() {
    let mut store = new_task_store();
    let mut message = user_message("hi");
    message.context_id = Some("ctx-9".to_string());
    let resp = dispatch(
        request("message/send", RequestParams::Send(SendMessageParams { message }), 1),
        &mut store,
    );
    let task = resp.result.expect("task");
    assert_eq!(task.context_id.as_deref(), Some("ctx-9"));
    assert_eq!(task.id.len(), 36);
    assert!(task.status.timestamp.is_some());
    assert_eq!(store.get_task(&task.id).unwrap(), task);
    let second = dispatch(make_send_request(), &mut store).result.expect("task");
    assert_ne!(second.id, task.id);
    assert_eq!(store.len(), 2);
}

#[test]
fn user_text_joins_the_parts_that_have_text() {
    let parts = vec![Part::text("one"), Part { text: None }, Part::text(""), Part::text("two")];
    assert_eq!(user_text(&parts), "one\n\ntwo");
    assert_eq!(user_text(&vec![Part { text: None }]), "");
    assert_eq!(user_text(&vec![]), "");
}

#[test]
fn long_text_is_quoted_up_to_one_hundred_bytes() {
    let exact = "x".repeat(100);
    assert_eq!(preview(&exact), exact);
    let long = "x".repeat(101);
    assert_eq!(preview(&long), format!("{}...", exact));
    let bees = "\u{1F41D}".repeat(26);
    assert_eq!(preview(&bees), format!("{}...", "\u{1F41D}".repeat(25)));
    let shifted = format!("ab{}", "\u{1F41D}".repeat(25));
    assert_eq!(preview(&shifted), format!("ab{}...", "\u{1F41D}".repeat(24)));
}

#[test]
fn only_creating_and_cancelling_need_exclusive_access() {
    let get = || RequestParams::Get(GetTaskParams { id: "t-1".to_string() });
    let cancel = || RequestParams::Cancel(CancelTaskParams { id: "t-1".to_string() });
    assert_eq!(access_of(&make_send_request()), Access::Exclusive);
    assert_eq!(access_of(&request("tasks/cancel", cancel(), 1)), Access::Exclusive);
    assert_eq!(access_of(&request("tasks/get", get(), 1)), Access::Shared);
    assert_eq!(access_of(&request("tasks/cancel", get(), 1)), Access::Shared);
    assert_eq!(access_of(&request("message/send", cancel(), 1)), Access::Shared);
    assert_eq!(access_of(&request("unknown/method", cancel(), 1)), Access::Shared);
    let mut old = make_send_request();
    old.jsonrpc = "1.0".to_string();
    assert_eq!(access_of(&old), Access::Shared);
}

#[test]
fn shared_answers_are_those_of_the_gateway() {
    let mut store = store_with("t-1", "work");
    let requests = || {
        let mut old = make_send_request();
        old.jsonrpc = "1.0".to_string();
        vec![
            request("tasks/get", RequestParams::Get(GetTaskParams { id: "t-1".to_string() }), 1),
            request("tasks/get", RequestParams::Get(GetTaskParams { id: "t-2".to_string() }), 2),
            request("tasks/get", RequestParams::Malformed("bad".to_string()), 3),
            request("tasks/cancel", RequestParams::Malformed("bad".to_string()), 4),
            request("message/send", RequestParams::Get(GetTaskParams { id: "t".to_string() }), 5),
            request("nope", RequestParams::Malformed(String::new()), 6),
            old,
        ]
    };
    for (shared, exclusive) in requests().into_iter().zip(requests()) {
        assert_eq!(access_of(&shared), Access::Shared);
        let a = answer_shared(shared, &store);
        let b = handle_jsonrpc(exclusive, &mut store);
        assert_eq!(a, b);
        assert_eq!(store.len(), 1);
    }
    assert!(store.contains("t-1"));
    assert!(!store.contains("t-2"));
    assert_eq!(store.get_task("t-2"), Err(a2a_core::handler::TaskError::NotFound));
    assert_eq!(store.cancel_task("t-2", None), Err(a2a_core::handler::TaskError::NotFound));
}
