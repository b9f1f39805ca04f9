//! The debate session engine: a multi-round debate among peer agents.
//!
//! Round one asks every peer for independent research. Each later round
//! shows every peer all responses of the round before and asks for a
//! critique. After each round the consensus analyzer decides whether the
//! debate ends.

use vstd::prelude::*;
use vstd::string::*;
use crate::ambient::fresh_id;
use crate::confidence::{one_decimal_text, Confidence};
use crate::consensus::{
    consensus_of, mean_confidence, opt_consensus_view, render_points, response_views,
    tally_responses, BeeResponse, BeeResponseView, ConsensusAnalysis, ConsensusAnalysisView,
};
use crate::text::{
    concat_all, decimal_string, decimal_text, lemma_block_occurs, lemma_concat_all_step,
    lemma_occurs_in_middle, lemma_occurs_in_trans, lemma_occurs_in_wider, occurs_in, texts,
};
use crate::types::{
    opt_text, MessageView, MetaEntry, MetaEntryView, MetaValue, MetaValueView, Message, Part,
    PartView, Role,
};

verus! {

pub const TOPIC_HEADING: &'static str = "## Debate Topic\n\n";

pub const ROUND1_TASK: &'static str =
    "\n\n## Your Task (Round 1 — Independent Research)\n\nAnalyze this topic from your unique perspective. Provide:\n1. Your **position** on the topic\n2. **Key arguments** supporting your position\n3. **Evidence** or reasoning\n4. **Confidence score** (0.0-1.0) in your position\n5. **Potential counterarguments** you anticipate\n";

pub const KNOWLEDGE_HEADING: &'static str =
    "\n## Knowledge Base Context\n\nThe following verified knowledge has been loaded. Use it to inform your analysis, but think beyond it:\n\n";

pub const SOURCE_HEADING: &'static str = "### Source ";

pub const ROUND_HEADING: &'static str = "\n\n## Round ";

pub const CRITIQUE_TITLE: &'static str =
    " — Critique & Synthesis\n\nYou have seen all participants' responses from Round ";

pub const CRITIQUE_TASK: &'static str =
    ". Your task:\n1. **Identify agreements** — what do most participants agree on?\n2. **Challenge weak arguments** — which positions lack evidence?\n3. **Synthesize insights** — combine the strongest ideas\n4. **Update your position** if others' arguments changed your mind\n5. **Confidence score** (0.0-1.0) — has your confidence changed?\n\n## Previous Round Responses\n\n";

pub const BEE_HEADING: &'static str = "### Bee ";

pub const CONFIDENCE_OPEN: &'static str = " (confidence: ";

pub const CONFIDENCE_CLOSE: &'static str = ")\n";

pub const LINE_END: &'static str = "\n";

pub const BLOCK_END: &'static str = "\n\n";

pub const META_ROUND: &'static str = "debate_round";

pub const META_INDEX: &'static str = "bee_index";

pub const META_SESSION: &'static str = "debate_session_id";

/// The number of rounds a debate runs for unless configured otherwise.
pub fn default_max_rounds() -> (n: usize)
    ensures
        n == 3,
{
    3
}

/// The consensus threshold unless configured otherwise: 0.8.
pub fn default_consensus_threshold() -> (t: Confidence)
    ensures
        t.millionths == 800_000,
{
    Confidence { millionths: 800_000 }
}

/// Configuration of a debate.
#[derive(Debug)]
pub struct DebateConfig {
    /// The research topic or question.
    pub topic: String,
    /// The number of peers taking part. Descriptive only: the fan-out goes
    /// by `bee_endpoints`.
    pub num_bees: usize,
    /// The number of rounds after which the debate ends without consensus.
    pub max_rounds: usize,
    /// The share and the mean confidence that consensus needs.
    pub consensus_threshold: Confidence,
    /// Knowledge handed to every peer in round one.
    pub knowledge_context: Vec<String>,
    /// The peers' endpoints; their order gives each peer its index.
    pub bee_endpoints: Vec<String>,
}

/// The mathematical model of `DebateConfig`: texts as `Seq<char>`, lists as
/// `Seq`.
pub struct DebateConfigView {
    pub topic: Seq<char>,
    pub num_bees: usize,
    pub max_rounds: usize,
    pub consensus_threshold: Confidence,
    pub knowledge_context: Seq<Seq<char>>,
    pub bee_endpoints: Seq<Seq<char>>,
}

impl View for DebateConfig {
    type V = DebateConfigView;

    open spec fn view(&self) -> DebateConfigView {
        DebateConfigView {
            topic: self.topic@,
            num_bees: self.num_bees,
            max_rounds: self.max_rounds,
            consensus_threshold: self.consensus_threshold,
            knowledge_context: texts(self.knowledge_context@),
            bee_endpoints: texts(self.bee_endpoints@),
        }
    }
}

/// One recorded round of a debate.
#[derive(Debug)]
pub struct DebateRound {
    /// The round's number, counted from one.
    pub round_number: usize,
    /// The prompt that was sent to every peer.
    pub prompt: String,
    /// The responses collected, in endpoint order.
    pub responses: Vec<BeeResponse>,
    /// The analysis of the responses.
    pub consensus: Option<ConsensusAnalysis>,
}

/// The mathematical model of `DebateRound`: texts as `Seq<char>`, lists as
/// `Seq`.
pub struct DebateRoundView {
    pub round_number: usize,
    pub prompt: Seq<char>,
    pub responses: Seq<BeeResponseView>,
    pub consensus: Option<ConsensusAnalysisView>,
}

impl View for DebateRound {
    type V = DebateRoundView;

    open spec fn view(&self) -> DebateRoundView {
        DebateRoundView {
            round_number: self.round_number,
            prompt: self.prompt@,
            responses: response_views(self.responses@),
            consensus: opt_consensus_view(self.consensus),
        }
    }
}

/// The views of a list of rounds.
pub open spec fn round_views(v: Seq<DebateRound>) -> Seq<DebateRoundView> {
    Seq::new(v.len(), |i: int| v[i]@)
}

/// Where a debate stands.
#[derive(Clone, Copy, Debug, PartialEq, Eq, Structural)]
pub enum DebateState {
    /// Waiting to start.
    Pending,
    /// A round's peer calls are outstanding. Set by the orchestrator only.
    InRound,
    /// A round was recorded and the debate goes on.
    Analyzing,
    /// The debate ended with consensus.
    Concluded,
    /// The debate ended without consensus after the last round.
    Exhausted,
}

impl DebateState {
    /// The state's name.
    pub open spec fn name_text(self) -> Seq<char> {
        match self {
            DebateState::Pending => "Pending"@,
            DebateState::InRound => "InRound"@,
            DebateState::Analyzing => "Analyzing"@,
            DebateState::Concluded => "Concluded"@,
            DebateState::Exhausted => "Exhausted"@,
        }
    }

    /// The state's name.
    pub fn name(&self) -> (s: &'static str)
        ensures
            s@ == self.name_text(),
    {
        match self {
            DebateState::Pending => "Pending",
            DebateState::InRound => "InRound",
            DebateState::Analyzing => "Analyzing",
            DebateState::Concluded => "Concluded",
            DebateState::Exhausted => "Exhausted",
        }
    }

    /// A debate that has ended stays ended.
    pub open spec fn terminal(self) -> bool {
        self == DebateState::Concluded || self == DebateState::Exhausted
    }
}

/// The full state of a debate.
#[derive(Debug)]
pub struct DebateSession {
    /// The session's identifier.
    pub id: String,
    /// The debate's configuration.
    pub config: DebateConfig,
    /// The number of the round recorded last; zero before the first.
    pub current_round: usize,
    /// The recorded rounds, oldest first.
    pub rounds: Vec<DebateRound>,
    /// The final synthesis, once the orchestrator has written it.
    pub final_synthesis: Option<String>,
    /// Where the debate stands.
    pub state: DebateState,
}

/// The mathematical model of `DebateSession`: texts as `Seq<char>`, lists as
/// `Seq`.
pub struct DebateSessionView {
    pub id: Seq<char>,
    pub config: DebateConfigView,
    pub current_round: usize,
    pub rounds: Seq<DebateRoundView>,
    pub final_synthesis: Option<Seq<char>>,
    pub state: DebateState,
}

impl View for DebateSession {
    type V = DebateSessionView;

    open spec fn view(&self) -> DebateSessionView {
        DebateSessionView {
            id: self.id@,
            config: self.config@,
            current_round: self.current_round,
            rounds: round_views(self.rounds@),
            final_synthesis: opt_text(self.final_synthesis),
            state: self.state,
        }
    }
}

/// One entry of the knowledge context as round one shows it: a numbered
/// heading, then the entry itself.
pub open spec fn source_block(index: int, entry: Seq<char>) -> Seq<char> {
    SOURCE_HEADING@ + decimal_text((index + 1) as nat) + LINE_END@ + entry + BLOCK_END@
}

/// The knowledge context as round one shows it, entry by entry.
pub open spec fn source_blocks(context: Seq<Seq<char>>) -> Seq<Seq<char>> {
    Seq::new(context.len(), |i: int| source_block(i, context[i]))
}

/// The prompt of round one.
pub open spec fn round1_text(topic: Seq<char>, context: Seq<Seq<char>>) -> Seq<char> {
    let task = TOPIC_HEADING@ + topic + ROUND1_TASK@;
    if context.len() == 0 {
        task
    } else {
        task + KNOWLEDGE_HEADING@ + concat_all(source_blocks(context))
    }
}

/// One response as later rounds and the report show it.
pub open spec fn response_block(r: BeeResponseView) -> Seq<char> {
    BEE_HEADING@ + r.bee_id + CONFIDENCE_OPEN@ + one_decimal_text(r.confidence.millionths as nat)
        + CONFIDENCE_CLOSE@ + r.content + BLOCK_END@
}

/// The responses of a round as later rounds and the report show them.
pub open spec fn response_blocks(responses: Seq<BeeResponseView>) -> Seq<Seq<char>> {
    Seq::new(responses.len(), |i: int| response_block(responses[i]))
}

/// The prompt of round `round_num`, which shows the responses of the round
/// before.
pub open spec fn critique_text(
    topic: Seq<char>,
    round_num: nat,
    previous: Seq<BeeResponseView>,
) -> Seq<char> {
    TOPIC_HEADING@ + topic + ROUND_HEADING@ + decimal_text(round_num) + CRITIQUE_TITLE@
        + decimal_text((round_num - 1) as nat) + CRITIQUE_TASK@ + concat_all(
        response_blocks(previous),
    )
}

/// Appends every response of a round, each as `response_block` writes it.
pub fn append_responses(out: &mut String, responses: &Vec<BeeResponse>)
    ensures
        final(out)@ == old(out)@ + concat_all(response_blocks(response_views(responses@))),
{
    let ghost blocks = response_blocks(response_views(responses@));
    let ghost start = out@;
    let mut i: usize = 0;
    assert(out@ =~= start + concat_all(blocks.take(0)));
    while i < responses.len()
        invariant
            i <= responses.len(),
            blocks == response_blocks(response_views(responses@)),
            out@ == start + concat_all(blocks.take(i as int)),
        decreases responses.len() - i,
    {
        let r = &responses[i];
        proof {
            lemma_concat_all_step(blocks, i as int);
        }
        let ghost so_far = out@;
        out.append(BEE_HEADING);
        out.append(r.bee_id.as_str());
        out.append(CONFIDENCE_OPEN);
        out.append(r.confidence.one_decimal().as_str());
        out.append(CONFIDENCE_CLOSE);
        out.append(r.content.as_str());
        out.append(BLOCK_END);
        assert(out@ =~= so_far + blocks[i as int]);
        i += 1;
    }
    assert(blocks.take(responses.len() as int) =~= blocks);
}

impl DebateSession {
    /// A new debate with the given identifier: pending, with no round
    /// recorded.
    pub fn with_id(config: DebateConfig, id: String) -> (s: DebateSession)
        ensures
            s.id == id,
            s.config == config,
            s.current_round == 0,
            s.rounds@.len() == 0,
            s.final_synthesis is None,
            s.state == DebateState::Pending,
            in_order(s@),
    {
        DebateSession {
            id,
            current_round: 0,
            rounds: Vec::new(),
            final_synthesis: None,
            state: DebateState::Pending,
            config,
        }
    }

    /// A new debate under a fresh random identifier.
    pub fn new(config: DebateConfig) -> (s: DebateSession)
        ensures
            s.config == config,
            s.current_round == 0,
            s.rounds@.len() == 0,
            s.final_synthesis is None,
            s.state == DebateState::Pending,
            in_order(s@),
    {
        DebateSession::with_id(config, fresh_id())
    }

    /// The prompt of round one: the topic and the task, then, if there is
    /// knowledge context, every entry under a numbered heading.
    pub fn round1_prompt(&self) -> (prompt: String)
        ensures
            prompt@ == round1_text(self.config.topic@, texts(self.config.knowledge_context@)),
    {
        let context = &self.config.knowledge_context;
        let ghost entries = texts(context@);
        let ghost blocks = source_blocks(entries);
        let mut prompt = String::from_str(TOPIC_HEADING);
        prompt.append(self.config.topic.as_str());
        prompt.append(ROUND1_TASK);
        if context.len() > 0 {
            prompt.append(KNOWLEDGE_HEADING);
            let ghost start = prompt@;
            let mut i: usize = 0;
            assert(prompt@ =~= start + concat_all(blocks.take(0)));
            while i < context.len()
                invariant
                    i <= context.len(),
                    entries == texts(context@),
                    blocks == source_blocks(entries),
                    prompt@ == start + concat_all(blocks.take(i as int)),
                decreases context.len() - i,
            {
                proof {
                    lemma_concat_all_step(blocks, i as int);
                }
                let ghost so_far = prompt@;
                prompt.append(SOURCE_HEADING);
                prompt.append(decimal_string((i + 1) as u64).as_str());
                prompt.append(LINE_END);
                prompt.append(context[i].as_str());
                prompt.append(BLOCK_END);
                assert(prompt@ =~= so_far + source_block(i as int, entries[i as int]));
                i += 1;
            }
            assert(blocks.take(context.len() as int) =~= blocks);
        }
        assert(prompt@ =~= round1_text(self.config.topic@, entries));
        prompt
    }

    /// The prompt of round `round_num`, two or later: the topic, the round's
    /// number, the task, and every response of the round before, in order,
    /// with its peer, its confidence to one decimal place and its content.
    pub fn critique_prompt(&self, round_num: usize) -> (prompt: String)
        requires
            2 <= round_num <= self.rounds@.len() + 1,
        ensures
            prompt@ == critique_text(
                self.config.topic@,
                round_num as nat,
                response_views(self.rounds@[round_num - 2].responses@),
            ),
    {
        let previous = &self.rounds[round_num - 2];
        let mut prompt = String::from_str(TOPIC_HEADING);
        prompt.append(self.config.topic.as_str());
        prompt.append(ROUND_HEADING);
        prompt.append(decimal_string(round_num as u64).as_str());
        prompt.append(CRITIQUE_TITLE);
        prompt.append(decimal_string((round_num - 1) as u64).as_str());
        prompt.append(CRITIQUE_TASK);
        append_responses(&mut prompt, &previous.responses);
        assert(prompt@ =~= critique_text(
            self.config.topic@,
            round_num as nat,
            response_views(previous.responses@),
        ));
        prompt
    }

    /// Analyzes a round's responses: the mean confidence, the positions that
    /// a share of at least `threshold` of the peers hold, those that fewer
    /// hold, and whether consensus is reached, which takes a mean confidence
    /// of at least `threshold` and at least one agreement.
    pub fn analyze_consensus(responses: &[BeeResponse], threshold: Confidence) -> (analysis:
        ConsensusAnalysis)
        ensures
            analysis@ == consensus_of(response_views(responses@), threshold),
            analysis.consensus_reached == (analysis.avg_confidence.millionths
                >= threshold.millionths && analysis.agreement_points@.len() > 0),
            analysis.blind_spots@.len() == 0,
    {
        let avg_confidence = mean_confidence(responses);
        let (keys, counts) = tally_responses(responses);
        let total = responses.len();
        let agreement_points = render_points(&keys, &counts, total, threshold, true);
        let contention_points = render_points(&keys, &counts, total, threshold, false);
        let consensus_reached = avg_confidence.reaches(threshold) && agreement_points.len() > 0;
        let analysis = ConsensusAnalysis {
            avg_confidence,
            agreement_points,
            contention_points,
            blind_spots: Vec::new(),
            consensus_reached,
        };
        assert(analysis@.blind_spots =~= Seq::empty());
        analysis
    }
}

/// The metadata that tags an outbound message: the round, the peer's index
/// in the endpoint list, and the session.
pub open spec fn round_metadata(round_num: usize, index: int, session_id: Seq<char>) -> Seq<
    MetaEntryView,
> {
    seq![
        MetaEntryView { key: META_ROUND@, value: MetaValueView::Number(round_num as u64) },
        MetaEntryView { key: META_INDEX@, value: MetaValueView::Number(index as u64) },
        MetaEntryView { key: META_SESSION@, value: MetaValueView::Text(session_id) },
    ]
}

/// The message that goes to the peer at `index` in round `round_num`.
pub open spec fn round_message_view(
    session_id: Seq<char>,
    prompt: Seq<char>,
    round_num: usize,
    index: int,
    message_id: Option<Seq<char>>,
) -> MessageView {
    MessageView {
        message_id: message_id,
        context_id: Some(session_id),
        task_id: None,
        role: Role::User,
        parts: seq![PartView { text: Some(prompt) }],
        metadata: Some(round_metadata(round_num, index, session_id)),
    }
}

/// The state after a round: concluded on consensus, exhausted after the
/// last round without it, analyzing otherwise.
pub open spec fn state_after(reached: bool, round_number: usize, max_rounds: usize) -> DebateState {
    if reached {
        DebateState::Concluded
    } else if round_number >= max_rounds {
        DebateState::Exhausted
    } else {
        DebateState::Analyzing
    }
}

/// Why a round was not recorded.
#[derive(Clone, Copy, Debug, PartialEq, Eq, Structural)]
pub enum RoundError {
    /// The round's number is not the one after the round recorded last.
    OutOfOrder,
}

impl DebateSession {
    /// The prompt that round `round_num` sends.
    pub open spec fn round_prompt_text(&self, round_num: usize) -> Seq<char> {
        if round_num == 1 {
            round1_text(self.config.topic@, texts(self.config.knowledge_context@))
        } else {
            critique_text(
                self.config.topic@,
                round_num as nat,
                response_views(self.rounds@[round_num - 2].responses@),
            )
        }
    }

    /// Whether the session can build the prompt of round `round_num`: round
    /// one always, a later round once the round before it is recorded.
    pub open spec fn can_prompt(&self, round_num: usize) -> bool {
        round_num == 1 || 2 <= round_num <= self.rounds@.len() + 1
    }

    /// The outbound message for the peer at `index`, under the given message
    /// identifier.
    pub fn round_message(
        &self,
        round_num: usize,
        index: usize,
        prompt: &str,
        message_id: String,
    ) -> (m: Message)
        ensures
            m@ == round_message_view(self.id@, prompt@, round_num, index as int, Some(message_id@)),
    {
        let mut metadata: Vec<MetaEntry> = Vec::new();
        metadata.push(
            MetaEntry {
                key: String::from_str(META_ROUND),
                value: MetaValue::Number(round_num as u64),
            },
        );
        metadata.push(
            MetaEntry { key: String::from_str(META_INDEX), value: MetaValue::Number(index as u64) },
        );
        metadata.push(
            MetaEntry {
                key: String::from_str(META_SESSION),
                value: MetaValue::Text(self.id.clone()),
            },
        );
        let mut parts: Vec<Part> = Vec::new();
        parts.push(Part::text(prompt));
        let m = Message {
            message_id: Some(message_id),
            context_id: Some(self.id.clone()),
            task_id: None,
            role: Role::User,
            parts,
            metadata: Some(metadata),
        };
        assert(m@.parts =~= seq![PartView { text: Some(prompt@) }]);
        assert(m@.metadata.unwrap() =~= round_metadata(round_num, index as int, self.id@));
        m
    }

    /// The outbound messages of round `round_num`: one per endpoint, in
    /// endpoint order, each paired with its endpoint, carrying the round's
    /// prompt and tagged with the round, the endpoint's index and the
    /// session. Each gets a fresh random message identifier.
    pub fn build_round_messages(&self, round_num: usize) -> (out: Vec<(String, Message)>)
        requires
            self.can_prompt(round_num),
        ensures
            out@.len() == self.config.bee_endpoints@.len(),
            forall|i: int|
                0 <= i < out@.len() ==> {
                    &&& (#[trigger] out@[i]).0@ == self.config.bee_endpoints@[i]@
                    &&& out@[i].1.message_id is Some
                    &&& out@[i].1@ == round_message_view(
                        self.id@,
                        self.round_prompt_text(round_num),
                        round_num,
                        i,
                        opt_text(out@[i].1.message_id),
                    )
                },
    {
        let prompt = if round_num == 1 {
            self.round1_prompt()
        } else {
            self.critique_prompt(round_num)
        };
        let endpoints = &self.config.bee_endpoints;
        let mut out: Vec<(String, Message)> = Vec::new();
        let mut i: usize = 0;
        while i < endpoints.len()
            invariant
                i <= endpoints.len(),
                endpoints == &self.config.bee_endpoints,
                prompt@ == self.round_prompt_text(round_num),
                out@.len() == i,
                forall|j: int|
                    0 <= j < i ==> {
                        &&& (#[trigger] out@[j]).0@ == endpoints@[j]@
                        &&& out@[j].1.message_id is Some
                        &&& out@[j].1@ == round_message_view(
                            self.id@,
                            prompt@,
                            round_num,
                            j,
                            opt_text(out@[j].1.message_id),
                        )
                    },
            decreases endpoints.len() - i,
        {
            let message = self.round_message(round_num, i, prompt.as_str(), fresh_id());
            out.push((endpoints[i].clone(), message));
            i += 1;
        }
        out
    }

    /// Records a completed round under the number the caller gives, which
    /// is not checked against the rounds recorded before. The round is
    /// analyzed against the configured threshold and appended; the session
    /// concludes on consensus, is exhausted if the number has reached the
    /// configured maximum, and goes on analyzing otherwise.
    pub fn record_round(&mut self, round_number: usize, prompt: String, responses: Vec<BeeResponse>)
        ensures
            final(self).id == old(self).id,
            final(self).config == old(self).config,
            final(self).final_synthesis == old(self).final_synthesis,
            final(self).current_round == round_number,
            final(self).rounds@.len() == old(self).rounds@.len() + 1,
            round_views(final(self).rounds@) == round_views(old(self).rounds@).push(
                DebateRoundView {
                    round_number: round_number,
                    prompt: prompt@,
                    responses: response_views(responses@),
                    consensus: Some(
                        consensus_of(response_views(responses@), old(self).config.consensus_threshold),
                    ),
                },
            ),
            final(self).state == state_after(
                consensus_of(
                    response_views(responses@),
                    old(self).config.consensus_threshold,
                ).consensus_reached,
                round_number,
                old(self).config.max_rounds,
            ),
            consensus_of(
                response_views(responses@),
                old(self).config.consensus_threshold,
            ).consensus_reached ==> final(self).state == DebateState::Concluded,
            !consensus_of(
                response_views(responses@),
                old(self).config.consensus_threshold,
            ).consensus_reached && round_number >= old(self).config.max_rounds
                ==> final(self).state == DebateState::Exhausted,
    {
        let consensus = DebateSession::analyze_consensus(
            responses.as_slice(),
            self.config.consensus_threshold,
        );
        let reached = consensus.consensus_reached;
        let ghost before = round_views(self.rounds@);
        let round = DebateRound { round_number, prompt, responses, consensus: Some(consensus) };
        let ghost added = round@;
        self.rounds.push(round);
        assert(round_views(self.rounds@) =~= before.push(added));
        self.current_round = round_number;
        self.state = if reached {
            DebateState::Concluded
        } else if round_number >= self.config.max_rounds {
            DebateState::Exhausted
        } else {
            DebateState::Analyzing
        };
    }

    /// Records a round only if its number is the one after the round
    /// recorded last and as many rounds are on record as that round's
    /// number says. Otherwise the session stays as it is.
    pub fn record_next_round(
        &mut self,
        round_number: usize,
        prompt: String,
        responses: Vec<BeeResponse>,
    ) -> (r: Result<(), RoundError>)
        ensures
            r is Ok <==> (round_number == old(self).current_round + 1 && old(self).rounds@.len()
                == old(self).current_round),
            r is Err ==> *final(self) == *old(self),
            r is Ok ==> {
                &&& final(self).id == old(self).id
                &&& final(self).config == old(self).config
                &&& final(self).final_synthesis == old(self).final_synthesis
                &&& final(self).current_round == round_number
                &&& final(self).rounds@.len() == final(self).current_round
                &&& in_order(old(self)@) ==> in_order(final(self)@)
                &&& round_views(final(self).rounds@) == round_views(old(self).rounds@).push(
                    DebateRoundView {
                        round_number: round_number,
                        prompt: prompt@,
                        responses: response_views(responses@),
                        consensus: Some(
                            consensus_of(
                                response_views(responses@),
                                old(self).config.consensus_threshold,
                            ),
                        ),
                    },
                )
                &&& final(self).state == state_after(
                    consensus_of(
                        response_views(responses@),
                        old(self).config.consensus_threshold,
                    ).consensus_reached,
                    round_number,
                    old(self).config.max_rounds,
                )
            },
    {
        if self.current_round < usize::MAX && round_number == self.current_round + 1
            && self.rounds.len() == self.current_round {
            let ghost before = round_views(self.rounds@);
            self.record_round(round_number, prompt, responses);
            assert(round_views(self.rounds@).len() == before.len() + 1);
            Ok(())
        } else {
            Err(RoundError::OutOfOrder)
        }
    }
}

/// A source block shows its number and its entry in full.
pub proof fn lemma_source_block_shows(index: int, entry: Seq<char>)
    ensures
        occurs_in(source_block(index, entry), SOURCE_HEADING@ + decimal_text((index + 1) as nat)),
        occurs_in(source_block(index, entry), entry),
{
    let block = source_block(index, entry);
    let number = SOURCE_HEADING@ + decimal_text((index + 1) as nat);
    assert(occurs_in(block, number)) by {
        lemma_occurs_in_middle(Seq::empty(), number, LINE_END@ + entry + BLOCK_END@);
        assert(Seq::<char>::empty() + number + (LINE_END@ + entry + BLOCK_END@) =~= block);
    }
    assert(occurs_in(block, entry)) by {
        lemma_occurs_in_middle(number + LINE_END@, entry, BLOCK_END@);
        assert(number + LINE_END@ + entry + BLOCK_END@ =~= block);
    }
}

/// Round one shows every entry of the knowledge context verbatim, under a
/// heading that numbers the entries from one in list order.
pub proof fn lemma_round1_shows_context(topic: Seq<char>, context: Seq<Seq<char>>, i: int)
    requires
        0 <= i < context.len(),
    ensures
        occurs_in(round1_text(topic, context), source_block(i, context[i])),
        occurs_in(round1_text(topic, context), SOURCE_HEADING@ + decimal_text((i + 1) as nat)),
        occurs_in(round1_text(topic, context), context[i]),
{
    let blocks = source_blocks(context);
    let block = source_block(i, context[i]);
    let head = TOPIC_HEADING@ + topic + ROUND1_TASK@ + KNOWLEDGE_HEADING@;
    let whole = round1_text(topic, context);
    assert(occurs_in(whole, block)) by {
        lemma_block_occurs(blocks, i);
        assert(blocks[i] == block);
        lemma_occurs_in_wider(head, concat_all(blocks), Seq::empty(), block);
        assert(head + concat_all(blocks) + Seq::<char>::empty() =~= whole);
    }
    lemma_source_block_shows(i, context[i]);
    lemma_occurs_in_trans(whole, block, SOURCE_HEADING@ + decimal_text((i + 1) as nat));
    lemma_occurs_in_trans(whole, block, context[i]);
}

/// A response block shows the peer's identifier, its confidence to one
/// decimal place, and its content in full.
pub proof fn lemma_response_block_shows(r: BeeResponseView)
    ensures
        occurs_in(response_block(r), BEE_HEADING@ + r.bee_id),
        occurs_in(
            response_block(r),
            CONFIDENCE_OPEN@ + one_decimal_text(r.confidence.millionths as nat) + CONFIDENCE_CLOSE@,
        ),
        occurs_in(response_block(r), r.content),
{
    let block = response_block(r);
    let name = BEE_HEADING@ + r.bee_id;
    let level = CONFIDENCE_OPEN@ + one_decimal_text(r.confidence.millionths as nat)
        + CONFIDENCE_CLOSE@;
    lemma_occurs_in_middle(Seq::empty(), name, level + r.content + BLOCK_END@);
    assert(Seq::<char>::empty() + name + (level + r.content + BLOCK_END@) =~= block);
    lemma_occurs_in_middle(name, level, r.content + BLOCK_END@);
    assert(name + level + (r.content + BLOCK_END@) =~= block);
    lemma_occurs_in_middle(name + level, r.content, BLOCK_END@);
    assert(name + level + r.content + BLOCK_END@ =~= block);
}

/// The critique prompt of a round shows, for every response of the round
/// before, the peer's identifier, its confidence to one decimal place, and
/// its content in full.
pub proof fn lemma_critique_shows_responses(
    topic: Seq<char>,
    round_num: nat,
    previous: Seq<BeeResponseView>,
    i: int,
)
    requires
        0 <= i < previous.len(),
    ensures
        occurs_in(critique_text(topic, round_num, previous), response_block(previous[i])),
        occurs_in(critique_text(topic, round_num, previous), BEE_HEADING@ + previous[i].bee_id),
        occurs_in(
            critique_text(topic, round_num, previous),
            CONFIDENCE_OPEN@ + one_decimal_text(previous[i].confidence.millionths as nat)
                + CONFIDENCE_CLOSE@,
        ),
        occurs_in(critique_text(topic, round_num, previous), previous[i].content),
{
    let blocks = response_blocks(previous);
    let block = response_block(previous[i]);
    let whole = critique_text(topic, round_num, previous);
    let head = TOPIC_HEADING@ + topic + ROUND_HEADING@ + decimal_text(round_num) + CRITIQUE_TITLE@
        + decimal_text((round_num - 1) as nat) + CRITIQUE_TASK@;
    lemma_block_occurs(blocks, i);
    assert(blocks[i] == block);
    lemma_occurs_in_wider(head, concat_all(blocks), Seq::empty(), block);
    assert(head + concat_all(blocks) + Seq::<char>::empty() =~= whole);
    lemma_response_block_shows(previous[i]);
    lemma_occurs_in_trans(whole, block, BEE_HEADING@ + previous[i].bee_id);
    lemma_occurs_in_trans(
        whole,
        block,
        CONFIDENCE_OPEN@ + one_decimal_text(previous[i].confidence.millionths as nat)
            + CONFIDENCE_CLOSE@,
    );
    lemma_occurs_in_trans(whole, block, previous[i].content);
}

/// Rounds recorded in order: as many rounds are on record as the number of
/// the round recorded last, and they are numbered from one without gaps.
pub open spec fn in_order(s: DebateSessionView) -> bool {
    &&& s.rounds.len() == s.current_round
    &&& forall|i: int| 0 <= i < s.rounds.len() ==> (#[trigger] s.rounds[i]).round_number == i + 1
}

/// A session without rounds is in order, and recording the next round
/// keeps a session in order.
pub proof fn lemma_next_round_keeps_order(before: DebateSessionView, round: DebateRoundView)
    requires
        in_order(before),
        round.round_number == before.current_round + 1,
    ensures
        in_order(
            DebateSessionView {
                current_round: round.round_number,
                rounds: before.rounds.push(round),
                ..before
            },
        ),
{
}

/// Whether a debate ends after a round is decided by that round alone: it
/// concludes exactly on consensus, whatever the round's number and however
/// many rounds are allowed, and it is exhausted exactly when there is no
/// consensus and the round's number has reached the maximum.
pub proof fn lemma_state_after(reached: bool, round_number: usize, max_rounds: usize)
    ensures
        state_after(reached, round_number, max_rounds) == DebateState::Concluded <==> reached,
        state_after(reached, round_number, max_rounds) == DebateState::Exhausted <==> (!reached
            && round_number >= max_rounds),
        state_after(reached, round_number, max_rounds) == DebateState::Analyzing <==> (!reached
            && round_number < max_rounds),
        state_after(reached, round_number, max_rounds) != DebateState::Pending,
        state_after(reached, round_number, max_rounds) != DebateState::InRound,
        state_after(reached, round_number, max_rounds).terminal() <==> (reached || round_number
            >= max_rounds),
{
}

/// Copies a list of responses.
pub fn clone_responses(v: &Vec<BeeResponse>) -> (r: Vec<BeeResponse>)
    ensures
        response_views(r@) == response_views(v@),
{
    let mut r: Vec<BeeResponse> = Vec::new();
    let mut i: usize = 0;
    while i < v.len()
        invariant
            i <= v.len(),
            r@.len() == i,
            forall|j: int| 0 <= j < i ==> r@[j]@ == v@[j]@,
        decreases v.len() - i,
    {
        r.push(v[i].clone());
        i += 1;
    }
    assert(response_views(r@) =~= response_views(v@));
    r
}

impl Clone for DebateConfig {
    fn clone(&self) -> (r: Self)
        ensures
            r@ == self@,
    {
        DebateConfig {
            topic: self.topic.clone(),
            num_bees: self.num_bees,
            max_rounds: self.max_rounds,
            consensus_threshold: self.consensus_threshold,
            knowledge_context: crate::text::clone_strings(&self.knowledge_context),
            bee_endpoints: crate::text::clone_strings(&self.bee_endpoints),
        }
    }
}

impl Clone for DebateRound {
    fn clone(&self) -> (r: Self)
        ensures
            r@ == self@,
    {
        let consensus = match &self.consensus {
            Some(c) => Some(c.clone()),
            None => None,
        };
        DebateRound {
            round_number: self.round_number,
            prompt: self.prompt.clone(),
            responses: clone_responses(&self.responses),
            consensus,
        }
    }
}

impl Clone for DebateSession {
    fn clone(&self) -> (r: Self)
        ensures
            r@ == self@,
    {
        let mut rounds: Vec<DebateRound> = Vec::new();
        let mut i: usize = 0;
        while i < self.rounds.len()
            invariant
                i <= self.rounds.len(),
                rounds@.len() == i,
                forall|j: int| 0 <= j < i ==> rounds@[j]@ == self.rounds@[j]@,
            decreases self.rounds.len() - i,
        {
            rounds.push(self.rounds[i].clone());
            i += 1;
        }
        assert(round_views(rounds@) =~= round_views(self.rounds@));
        DebateSession {
            id: self.id.clone(),
            config: self.config.clone(),
            current_round: self.current_round,
            rounds,
            final_synthesis: crate::types::clone_opt_string(&self.final_synthesis),
            state: self.state,
        }
    }
}

} // verus!
