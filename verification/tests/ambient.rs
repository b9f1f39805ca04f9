use a2a_core::ambient::{current_timestamp, timestamp_text};
use a2a_core::handler::{new_task_store, TaskStamp};
use a2a_core::types::{Message, MetaEntry, MetaValue, Part, Role, TaskState};

#[test]
fn instants_are_written_as_rfc3339() {
    assert_eq!(timestamp_text(Some((0, 0))).as_deref(), Some("1970-01-01T00:00:00+00:00"));
    assert_eq!(
        timestamp_text(Some((1_700_000_000, 500_000_000))).as_deref(),
        Some("2023-11-14T22:13:20.500+00:00")
    );
    assert_eq!(timestamp_text(None), None);
    assert_eq!(timestamp_text(Some((u64::MAX, 0))), None);
    assert_eq!(timestamp_text(Some((i64::MAX as u64, 0))), None);
    assert_eq!(timestamp_text(Some((0, 2_000_000_000))), None);
}

#[test]
fn the_clock_gives_a_time_that_chrono_reads_back() {
    let now = current_timestamp().expect("a clock after 1970");
    let parsed = chrono::DateTime::parse_from_rfc3339(&now).expect("rfc 3339");
    assert!(parsed.timestamp() > 1_600_000_000);
}

#[test]
fn fresh_stamps_differ() {
    let a = TaskStamp::fresh();
    let b = TaskStamp::fresh();
    assert_eq!(a.task_id.len(), 36);
    assert_ne!(a.task_id, b.task_id);
    assert_ne!(a.task_id, a.context_id);
    assert_ne!(a.task_id, a.status_message_id);
    assert!(a.timestamp.is_some());
}

#[test]
fn stored_tasks_keep_foreign_metadata() {
    let mut object = serde_json::Map::new();
    object.insert("k".to_string(), serde_json::Value::from(vec![1, 2, 3]));
    let message = Message {
        message_id: Some("m-1".to_string()),
        context_id: None,
        task_id: None,
        role: Role::User,
        parts: vec![Part::text("hi"), Part { text: None }],
        metadata: Some(vec![
            MetaEntry { key: "n".to_string(), value: MetaValue::Number(7) },
            MetaEntry { key: "t".to_string(), value: MetaValue::Text("x".to_string()) },
            MetaEntry { key: "j".to_string(), value: MetaValue::Json(serde_json::Value::Object(object)) },
        ]),
    };
    let mut store = new_task_store();
    let stamp = TaskStamp {
        task_id: "t-1".to_string(),
        context_id: "c-1".to_string(),
        status_message_id: "s-1".to_string(),
        timestamp: None,
    };
    let created = store.create_task(message.clone(), stamp);
    assert_eq!(created.history, vec![message.clone()]);
    let stored = store.get_task("t-1").expect("stored");
    assert_eq!(stored, created);
    assert_eq!(stored.history[0], message);
    assert_eq!(stored.status.timestamp, None);
    assert_eq!(TaskState::Working.name(), "Working");
    assert_eq!(TaskState::InputRequired.name(), "InputRequired");
    assert!(TaskState::Failed.is_terminal());
    assert!(!TaskState::Rejected.is_terminal());
}

fn is_uuid_v4_text(text: &str) -> bool {
    let chars: Vec<char> = text.chars().collect();
    chars.len() == 36
        && chars.iter().enumerate().all(|(i, c)| {
            if i == 8 || i == 13 || i == 18 || i == 23 {
                *c == '-'
            } else {
                c.is_ascii_digit() || ('a'..='f').contains(c)
            }
        })
        && chars[14] == '4'
        && ['8', '9', 'a', 'b'].contains(&chars[19])
}

#[test]
fn fresh_identifiers_are_version_four_uuids_in_hyphenated_form() {
    for _ in 0..500 {
        let stamp = TaskStamp::fresh();
        for id in [&stamp.task_id, &stamp.context_id, &stamp.status_message_id] {
            assert!(is_uuid_v4_text(id), "id {:?}", id);
        }
        let time = stamp.timestamp.expect("a clock after 1970");
        let parsed = chrono::DateTime::parse_from_rfc3339(&time).expect("rfc 3339");
        assert!(parsed.timestamp() >= 0);
        assert!(parsed.timestamp_subsec_nanos() < 1_000_000_000);
    }
}
