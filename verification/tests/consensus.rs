use a2a_core::confidence::Confidence;
use a2a_core::consensus::{mean_confidence, render_points, tally_responses, BeeResponse};
use a2a_core::debate::{
    default_consensus_threshold, default_max_rounds, DebateConfig, DebateSession, DebateState,
    RoundError,
};

fn level(millionths: u32) -> Confidence {
    Confidence::from_millionths(millionths)
}

fn bee(id: &str, confidence: u32, position: Option<&str>) -> BeeResponse {
    BeeResponse {
        bee_id: id.to_string(),
        endpoint: format!("http://{}:18789", id),
        content: format!("{} speaks", id),
        confidence: level(confidence),
        position: position.map(|p| p.to_string()),
        key_points: vec![],
    }
}

fn config(max_rounds: usize) -> DebateConfig {
    DebateConfig {
        topic: "Tabs or spaces?".to_string(),
        num_bees: 2,
        max_rounds,
        consensus_threshold: level(800_000),
        knowledge_context: vec![],
        bee_endpoints: vec!["http://a".to_string(), "http://b".to_string()],
    }
}

#[test]
fn three_pro_responses_reach_consensus() {
    let responses = vec![
        bee("bee-1", 900_000, Some("pro")),
        bee("bee-2", 850_000, Some("pro")),
        bee("bee-3", 800_000, Some("pro")),
    ];
    let analysis = DebateSession::analyze_consensus(&responses, level(800_000));
    assert!(analysis.consensus_reached);
    assert_eq!(analysis.avg_confidence, level(850_000));
    assert_eq!(analysis.agreement_points, vec!["pro (3/3 agree)".to_string()]);
    assert!(analysis.contention_points.is_empty());
    assert!(analysis.blind_spots.is_empty());
}

#[test]
fn split_responses_below_threshold_contend() {
    let responses = vec![bee("bee-1", 900_000, Some("pro")), bee("bee-2", 600_000, Some("con"))];
    let analysis = DebateSession::analyze_consensus(&responses, level(800_000));
    assert!(!analysis.consensus_reached);
    assert_eq!(analysis.avg_confidence, level(750_000));
    assert!(analysis.agreement_points.is_empty());
    assert_eq!(
        analysis.contention_points,
        vec!["pro (1/2 agree)".to_string(), "con (1/2 agree)".to_string()]
    );
}

#[test]
fn positions_are_grouped_in_lower_case() {
    let responses = vec![
        bee("bee-1", 900_000, Some("PRO")),
        bee("bee-2", 900_000, Some("Pro")),
        bee("bee-3", 900_000, None),
        bee("bee-4", 900_000, Some("con")),
    ];
    let (keys, counts) = tally_responses(&responses);
    assert_eq!(keys, vec!["pro".to_string(), "con".to_string()]);
    assert_eq!(counts, vec![2, 1]);
    let agree = render_points(&keys, &counts, 4, level(500_000), true);
    assert_eq!(agree, vec!["pro (2/4 agree)".to_string()]);
    let contend = render_points(&keys, &counts, 4, level(500_000), false);
    assert_eq!(contend, vec!["con (1/4 agree)".to_string()]);
}

#[test]
fn agreement_without_confidence_is_no_consensus() {
    let responses = vec![bee("bee-1", 700_000, Some("pro")), bee("bee-2", 799_999, Some("pro"))];
    let analysis = DebateSession::analyze_consensus(&responses, level(800_000));
    assert_eq!(analysis.agreement_points, vec!["pro (2/2 agree)".to_string()]);
    assert!(!analysis.consensus_reached);
}

#[test]
fn confidence_without_agreement_is_no_consensus() {
    let responses = vec![bee("bee-1", 900_000, None), bee("bee-2", 900_000, None)];
    let analysis = DebateSession::analyze_consensus(&responses, level(800_000));
    assert_eq!(analysis.avg_confidence, level(900_000));
    assert!(analysis.agreement_points.is_empty());
    assert!(!analysis.consensus_reached);
}

#[test]
fn no_responses_give_zero_confidence_and_no_consensus() {
    let analysis = DebateSession::analyze_consensus(&[], level(0));
    assert_eq!(analysis.avg_confidence, level(0));
    assert!(analysis.agreement_points.is_empty());
    assert!(analysis.contention_points.is_empty());
    assert!(!analysis.consensus_reached);
}

#[test]
fn mean_is_cut_to_whole_millionths() {
    let responses = vec![bee("a", 1, None), bee("b", 0, None), bee("c", 0, None)];
    assert_eq!(mean_confidence(&responses), level(0));
    let responses = vec![bee("a", 4_294_967_295, None), bee("b", 4_294_967_295, None)];
    assert_eq!(mean_confidence(&responses), level(4_294_967_295));
}

#[test]
fn share_equal_to_threshold_agrees() {
    let responses = vec![
        bee("a", 900_000, Some("x")),
        bee("b", 900_000, Some("x")),
        bee("c", 900_000, Some("y")),
        bee("d", 900_000, Some("y")),
    ];
    let analysis = DebateSession::analyze_consensus(&responses, level(500_000));
    assert_eq!(
        analysis.agreement_points,
        vec!["x (2/4 agree)".to_string(), "y (2/4 agree)".to_string()]
    );
    assert!(analysis.consensus_reached);
}

#[test]
fn confidence_is_written_to_one_and_two_places() {
    assert_eq!(level(850_000).one_decimal(), "0.8");
    assert_eq!(level(750_000).one_decimal(), "0.8");
    assert_eq!(level(750_001).one_decimal(), "0.8");
    assert_eq!(level(650_000).one_decimal(), "0.6");
    assert_eq!(level(950_000).one_decimal(), "1.0");
    assert_eq!(level(0).one_decimal(), "0.0");
    assert_eq!(level(12_340_000).one_decimal(), "12.3");
    assert_eq!(level(850_000).two_decimals(), "0.85");
    assert_eq!(level(855_000).two_decimals(), "0.86");
    assert_eq!(level(845_000).two_decimals(), "0.84");
    assert_eq!(level(5_000).two_decimals(), "0.00");
    assert_eq!(level(1_000_000).two_decimals(), "1.00");
    assert_eq!(level(4_294_967_295).two_decimals(), "4294.97");
}

#[test]
fn defaults_are_three_rounds_and_four_fifths() {
    assert_eq!(default_max_rounds(), 3);
    assert_eq!(default_consensus_threshold(), level(800_000));
    assert!(level(800_000).reaches(default_consensus_threshold()));
    assert!(!level(799_999).reaches(default_consensus_threshold()));
}

#[test]
fn consensus_in_round_one_concludes_whatever_the_maximum() {
    let mut session = DebateSession::with_id(config(5), "s".to_string());
    session.record_round(1, "p".to_string(), vec![bee("a", 900_000, Some("pro"))]);
    assert_eq!(session.state, DebateState::Concluded);
    assert_eq!(session.rounds.len(), 1);
    assert_eq!(session.rounds[0].round_number, 1);
    assert_eq!(session.rounds[0].prompt, "p");
    assert!(session.rounds[0].consensus.as_ref().unwrap().consensus_reached);
}

#[test]
fn last_round_without_consensus_exhausts() {
    let mut session = DebateSession::with_id(config(2), "s".to_string());
    let split = || vec![bee("a", 900_000, Some("pro")), bee("b", 900_000, Some("con"))];
    session.record_round(1, "first".to_string(), split());
    assert_eq!(session.state, DebateState::Analyzing);
    session.record_round(2, "second".to_string(), split());
    assert_eq!(session.state, DebateState::Exhausted);
    assert_eq!(session.current_round, 2);
    assert_eq!(session.rounds.len(), 2);
}

#[test]
fn empty_round_is_no_consensus() {
    let mut session = DebateSession::with_id(config(3), "s".to_string());
    session.record_round(1, "p".to_string(), vec![]);
    assert_eq!(session.state, DebateState::Analyzing);
}

#[test]
fn record_round_takes_any_round_number() {
    let mut session = DebateSession::with_id(config(3), "s".to_string());
    session.record_round(7, "p".to_string(), vec![]);
    assert_eq!(session.current_round, 7);
    assert_eq!(session.rounds.len(), 1);
    assert_eq!(session.state, DebateState::Exhausted);
}

#[test]
fn record_next_round_refuses_a_round_out_of_order() {
    let mut session = DebateSession::with_id(config(3), "s".to_string());
    assert_eq!(session.record_next_round(2, "p".to_string(), vec![]), Err(RoundError::OutOfOrder));
    assert_eq!(session.current_round, 0);
    assert!(session.rounds.is_empty());
    assert_eq!(session.state, DebateState::Pending);
    assert_eq!(session.record_next_round(1, "p".to_string(), vec![]), Ok(()));
    assert_eq!(session.record_next_round(1, "p".to_string(), vec![]), Err(RoundError::OutOfOrder));
    assert_eq!(session.record_next_round(2, "p".to_string(), vec![]), Ok(()));
    assert_eq!(session.current_round, 2);
    assert_eq!(session.rounds.len(), 2);
}
