use a2a_core::agent_card::build_agent_card;

#[test]
fn test_build_agent_card() {
    let card = build_agent_card("127.0.0.1", 18789);
    assert!(card.name.contains("OpenCrabs"));
    assert_eq!(card.skills.len(), 3);
    assert_eq!(card.supported_interfaces[0].url, "http://127.0.0.1:18789/a2a/v1");
    assert_eq!(
        card.provider.as_ref().expect("provider").organization,
        "OpenCrabs Contributors"
    );
}

#[test]
fn agent_card_lists_skills_and_modes() {
    let card = build_agent_card("bee.local", 80);
    assert_eq!(card.supported_interfaces[0].url, "http://bee.local:80/a2a/v1");
    assert_eq!(card.supported_interfaces[0].protocol_binding, "JSONRPC");
    let ids: Vec<&str> = card.skills.iter().map(|s| s.id.as_str()).collect();
    assert_eq!(ids, vec!["code-analysis", "research", "debate"]);
    assert_eq!(card.skills[1].input_modes, vec!["text/plain".to_string()]);
    assert_eq!(card.skills[0].tags, vec!["code", "analysis", "refactoring"]);
    let caps = card.capabilities.expect("capabilities");
    assert!(!caps.streaming);
    assert!(!caps.push_notifications);
    assert!(caps.state_transition_history);
    assert_eq!(card.icon_url, None);
}
