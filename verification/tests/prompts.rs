use a2a_core::confidence::Confidence;
use a2a_core::consensus::BeeResponse;
use a2a_core::debate::{DebateConfig, DebateSession};

fn session(context: Vec<&str>) -> DebateSession {
    DebateSession::with_id(
        DebateConfig {
            topic: "Tabs or spaces?".to_string(),
            num_bees: 7,
            max_rounds: 3,
            consensus_threshold: Confidence::from_millionths(800_000),
            knowledge_context: context.into_iter().map(|c| c.to_string()).collect(),
            bee_endpoints: vec![],
        },
        "s-1".to_string(),
    )
}

fn bee(id: &str, content: &str, confidence: u32, position: Option<&str>) -> BeeResponse {
    BeeResponse {
        bee_id: id.to_string(),
        endpoint: String::new(),
        content: content.to_string(),
        confidence: Confidence::from_millionths(confidence),
        position: position.map(|p| p.to_string()),
        key_points: vec![],
    }
}

const TASK: &str = "## Debate Topic\n\nTabs or spaces?\n\n## Your Task (Round 1 \u{2014} Independent Research)\n\nAnalyze this topic from your unique perspective. Provide:\n1. Your **position** on the topic\n2. **Key arguments** supporting your position\n3. **Evidence** or reasoning\n4. **Confidence score** (0.0-1.0) in your position\n5. **Potential counterarguments** you anticipate\n";

#[test]
fn round_one_without_context_is_topic_and_task() {
    assert_eq!(session(vec![]).round1_prompt(), TASK);
}

#[test]
fn round_one_numbers_the_context_from_one() {
    let entries: Vec<String> = (1..=11).map(|i| format!("fact {}", i)).collect();
    let prompt = session(entries.iter().map(|e| e.as_str()).collect()).round1_prompt();
    let mut expected = TASK.to_string();
    expected.push_str("\n## Knowledge Base Context\n\nThe following verified knowledge has been loaded. Use it to inform your analysis, but think beyond it:\n\n");
    for (i, e) in entries.iter().enumerate() {
        expected.push_str(&format!("### Source {}\n{}\n\n", i + 1, e));
    }
    assert_eq!(prompt, expected);
    assert!(prompt.contains("### Source 10\nfact 10\n\n### Source 11\nfact 11\n\n"));
}

#[test]
fn critique_shows_each_response_of_the_round_before() {
    let mut s = session(vec![]);
    s.record_round(
        1,
        "p".to_string(),
        vec![bee("bee-1", "Tabs.", 850_000, Some("tabs")), bee("bee-2", "Spaces.", 600_000, None)],
    );
    let critique = s.critique_prompt(2);
    let expected = "## Debate Topic\n\nTabs or spaces?\n\n## Round 2 \u{2014} Critique & Synthesis\n\nYou have seen all participants' responses from Round 1. Your task:\n1. **Identify agreements** \u{2014} what do most participants agree on?\n2. **Challenge weak arguments** \u{2014} which positions lack evidence?\n3. **Synthesize insights** \u{2014} combine the strongest ideas\n4. **Update your position** if others' arguments changed your mind\n5. **Confidence score** (0.0-1.0) \u{2014} has your confidence changed?\n\n## Previous Round Responses\n\n### Bee bee-1 (confidence: 0.8)\nTabs.\n\n### Bee bee-2 (confidence: 0.6)\nSpaces.\n\n";
    assert_eq!(critique, expected);
}

#[test]
fn report_lists_rounds_statistics_and_synthesis() {
    let mut s = session(vec![]);
    s.record_round(
        1,
        "p".to_string(),
        vec![
            bee("bee-1", "Tabs.", 900_000, Some("Tabs")),
            bee("bee-2", "Tabs!", 900_000, Some("tabs")),
            bee("bee-3", "Spaces.", 855_000, Some("spaces")),
        ],
    );
    s.final_synthesis = Some("Use a formatter.".to_string());
    let expected = "# \u{1F41D} Bee Colony Debate Report\n\n**Topic:** Tabs or spaces?\n**Bees:** 7\n**Rounds:** 1/3\n**State:** Analyzing\n\n## Round 1\n\n### Bee bee-1 (confidence: 0.9)\nTabs.\n\n### Bee bee-2 (confidence: 0.9)\nTabs!\n\n### Bee bee-3 (confidence: 0.9)\nSpaces.\n\n### Consensus Analysis\n- Avg Confidence: 0.88\n- Consensus Reached: false\n- **Contentions:**\n  - tabs (2/3 agree)\n  - spaces (1/3 agree)\n\n## Final Synthesis\n\nUse a formatter.\n";
    assert_eq!(s.summary_report(), expected);
}

#[test]
fn report_of_a_pending_debate_is_its_head() {
    let s = session(vec![]);
    assert_eq!(
        s.summary_report(),
        "# \u{1F41D} Bee Colony Debate Report\n\n**Topic:** Tabs or spaces?\n**Bees:** 7\n**Rounds:** 0/3\n**State:** Pending\n\n"
    );
}

#[test]
fn report_shows_agreements_of_a_concluded_debate() {
    let mut s = session(vec![]);
    s.record_round(1, "p".to_string(), vec![bee("bee-1", "Tabs.", 1_000_000, Some("tabs"))]);
    let report = s.summary_report();
    assert!(report.contains("**State:** Concluded\n"));
    assert!(report.contains(
        "### Consensus Analysis\n- Avg Confidence: 1.00\n- Consensus Reached: true\n- **Agreements:**\n  - tabs (1/1 agree)\n\n"
    ));
    assert!(!report.contains("Contentions"));
}

#[test]
fn no_endpoints_no_messages() {
    assert!(session(vec![]).build_round_messages(1).is_empty());
}
