use a2a_core::confidence::Confidence;
use a2a_core::consensus::BeeResponse;
use a2a_core::debate::{DebateConfig, DebateSession, DebateState};
use a2a_core::types::{MetaValue, Role};

fn level(millionths: u32) -> Confidence {
    Confidence::from_millionths(millionths)
}

fn test_config() -> DebateConfig {
    DebateConfig {
        topic: "Should AI agents have persistent memory across sessions?".to_string(),
        num_bees: 3,
        max_rounds: 3,
        consensus_threshold: level(800_000),
        knowledge_context: vec![
            "Memory architectures: L0-L6 layered system with SQLite + FTS5".to_string(),
            "Security concern: memory injection attacks via prompt manipulation".to_string(),
        ],
        bee_endpoints: vec![
            "http://bee-1:18789/a2a/v1".to_string(),
            "http://bee-2:18789/a2a/v1".to_string(),
            "http://bee-3:18789/a2a/v1".to_string(),
        ],
    }
}

fn response(bee: &str, content: &str, confidence: u32, position: Option<&str>) -> BeeResponse {
    BeeResponse {
        bee_id: bee.to_string(),
        endpoint: format!("http://{}:18789", bee),
        content: content.to_string(),
        confidence: level(confidence),
        position: position.map(|p| p.to_string()),
        key_points: vec![],
    }
}

#[test]
fn test_debate_session_creation() {
    let config = test_config();
    let session = DebateSession::new(config);
    assert_eq!(session.state, DebateState::Pending);
    assert_eq!(session.current_round, 0);
    assert!(session.rounds.is_empty());
}

#[test]
fn test_round1_prompt_includes_knowledge() {
    let config = test_config();
    let session = DebateSession::new(config);
    let prompt = session.round1_prompt();

    assert!(prompt.contains("Should AI agents"));
    assert!(prompt.contains("Knowledge Base Context"));
    assert!(prompt.contains("L0-L6 layered system"));
    assert!(prompt.contains("memory injection attacks"));
    assert!(prompt.contains("Confidence score"));
}

#[test]
fn test_build_round_messages() {
    let config = test_config();
    let session = DebateSession::new(config);
    let messages = session.build_round_messages(1);

    assert_eq!(messages.len(), 3);
    for (endpoint, msg) in &messages {
        assert!(endpoint.starts_with("http://bee-"));
        assert_eq!(msg.role, Role::User);
        assert!(!msg.parts.is_empty());
        assert!(msg.metadata.is_some());
    }
}

#[test]
fn test_consensus_analysis_agreement() {
    let responses = vec![
        response("bee-1", "Yes, persistent memory is essential.", 900_000, Some("pro")),
        response("bee-2", "Strongly agree with persistent memory.", 850_000, Some("pro")),
        response("bee-3", "Yes, but with security constraints.", 800_000, Some("pro")),
    ];

    let consensus = DebateSession::analyze_consensus(&responses, level(800_000));
    assert!(consensus.consensus_reached);
    assert!(!consensus.agreement_points.is_empty());
    assert!(consensus.avg_confidence.millionths > 800_000);
}

#[test]
fn test_consensus_analysis_contention() {
    let responses = vec![
        response("bee-1", "Yes to memory.", 900_000, Some("pro")),
        response("bee-2", "No, too risky.", 700_000, Some("con")),
    ];

    let consensus = DebateSession::analyze_consensus(&responses, level(800_000));
    assert!(!consensus.consensus_reached);
    assert!(!consensus.contention_points.is_empty());
}

#[test]
fn test_record_round_and_state_transition() {
    let config = test_config();
    let mut session = DebateSession::new(config);

    let responses = vec![response("bee-1", "My analysis...", 900_000, Some("pro"))];

    session.record_round(1, "Round 1 prompt".to_string(), responses);
    assert_eq!(session.current_round, 1);
    // With only 1 bee saying "pro", consensus should be reached
    assert_eq!(session.state, DebateState::Concluded);
}

#[test]
fn test_summary_report() {
    let config = test_config();
    let mut session = DebateSession::new(config);

    let mut only = response(
        "bee-1",
        "Persistent memory is crucial for continuity.",
        850_000,
        Some("pro"),
    );
    only.key_points = vec!["continuity".to_string()];

    session.record_round(1, "Topic prompt".to_string(), vec![only]);
    let report = session.summary_report();

    assert!(report.contains("Bee Colony Debate Report"));
    assert!(report.contains("Should AI agents"));
    assert!(report.contains("Persistent memory is crucial"));
    assert!(report.contains("Consensus Analysis"));
}

#[test]
fn test_critique_prompt_includes_previous_responses() {
    let config = test_config();
    let mut session = DebateSession::new(config);

    // Simulate Round 1
    let r1_responses = vec![
        response("bee-1", "Memory helps with learning.", 800_000, Some("pro")),
        response("bee-2", "Privacy risks are high.", 600_000, Some("con")),
    ];
    session.record_round(1, "Round 1".to_string(), r1_responses);
    session.state = DebateState::InRound; // Force to allow R2

    let critique = session.critique_prompt(2);
    assert!(critique.contains("Critique & Synthesis"));
    assert!(critique.contains("Memory helps with learning"));
    assert!(critique.contains("Privacy risks are high"));
    assert!(critique.contains("Bee bee-1"));
    assert!(critique.contains("Bee bee-2"));
}

#[test]
fn round_messages_carry_index_and_session() {
    let session = DebateSession::with_id(test_config(), "session-7".to_string());
    let messages = session.build_round_messages(1);
    let prompt = session.round1_prompt();
    assert_eq!(messages.len(), 3);
    for (i, (endpoint, msg)) in messages.iter().enumerate() {
        assert_eq!(endpoint, &session.config.bee_endpoints[i]);
        assert_eq!(msg.context_id.as_deref(), Some("session-7"));
        assert_eq!(msg.task_id, None);
        assert_eq!(msg.parts.len(), 1);
        assert_eq!(msg.parts[0].text.as_deref(), Some(prompt.as_str()));
        let meta = msg.metadata.as_ref().unwrap();
        assert_eq!(meta.len(), 3);
        assert_eq!(meta[0].key, "debate_round");
        assert_eq!(meta[0].value, MetaValue::Number(1));
        assert_eq!(meta[1].key, "bee_index");
        assert_eq!(meta[1].value, MetaValue::Number(i as u64));
        assert_eq!(meta[2].key, "debate_session_id");
        assert_eq!(meta[2].value, MetaValue::Text("session-7".to_string()));
        assert_eq!(msg.message_id.as_ref().unwrap().len(), 36);
    }
    assert_ne!(messages[0].1.message_id, messages[1].1.message_id);
}
