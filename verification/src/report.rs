//! The textual summary of a debate: topic, peers, progress, and for every
//! round its responses and its consensus analysis.

use vstd::prelude::*;
use vstd::string::*;
use crate::confidence::two_decimal_text;
use crate::consensus::{ConsensusAnalysis, ConsensusAnalysisView};
use crate::debate::{
    append_responses, response_blocks, round_views, DebateRound, DebateRoundView, DebateSession,
    DebateSessionView, BLOCK_END, LINE_END,
};
use crate::text::{concat_all, decimal_string, decimal_text, lemma_concat_all_step, texts};

verus! {

pub const REPORT_TITLE: &'static str = "# 🐝 Bee Colony Debate Report\n\n**Topic:** ";

pub const REPORT_BEES: &'static str = "\n**Bees:** ";

pub const REPORT_ROUNDS: &'static str = "\n**Rounds:** ";

pub const REPORT_OF: &'static str = "/";

pub const REPORT_STATE: &'static str = "\n**State:** ";

pub const ROUND_TITLE: &'static str = "## Round ";

pub const CONSENSUS_TITLE: &'static str = "### Consensus Analysis\n- Avg Confidence: ";

pub const CONSENSUS_REACHED: &'static str = "\n- Consensus Reached: ";

pub const AGREEMENTS_TITLE: &'static str = "- **Agreements:**\n";

pub const CONTENTIONS_TITLE: &'static str = "- **Contentions:**\n";

pub const BULLET: &'static str = "  - ";

pub const SYNTHESIS_TITLE: &'static str = "## Final Synthesis\n\n";

pub const TRUE_TEXT: &'static str = "true";

pub const FALSE_TEXT: &'static str = "false";

/// How a truth value is written.
pub open spec fn bool_text(b: bool) -> Seq<char> {
    if b {
        TRUE_TEXT@
    } else {
        FALSE_TEXT@
    }
}

/// The head of the report.
pub open spec fn header_text(s: DebateSessionView) -> Seq<char> {
    REPORT_TITLE@ + s.config.topic + REPORT_BEES@ + decimal_text(s.config.num_bees as nat)
        + REPORT_ROUNDS@ + decimal_text(s.current_round as nat) + REPORT_OF@ + decimal_text(
        s.config.max_rounds as nat,
    ) + REPORT_STATE@ + s.state.name_text() + BLOCK_END@
}

/// The items of a list, one bullet line each.
pub open spec fn bullets(items: Seq<Seq<char>>) -> Seq<Seq<char>> {
    Seq::new(items.len(), |i: int| BULLET@ + items[i] + LINE_END@)
}

/// A titled list of bullet lines; nothing at all for an empty list.
pub open spec fn listing_text(title: Seq<char>, items: Seq<Seq<char>>) -> Seq<char> {
    if items.len() == 0 {
        Seq::empty()
    } else {
        title + concat_all(bullets(items))
    }
}

/// The consensus analysis of a round as the report shows it.
pub open spec fn consensus_text(c: ConsensusAnalysisView) -> Seq<char> {
    CONSENSUS_TITLE@ + two_decimal_text(c.avg_confidence.millionths as nat) + CONSENSUS_REACHED@
        + bool_text(c.consensus_reached) + LINE_END@ + listing_text(
        AGREEMENTS_TITLE@,
        c.agreement_points,
    ) + listing_text(CONTENTIONS_TITLE@, c.contention_points) + LINE_END@
}

/// A round as the report shows it: its number, its responses, and its
/// consensus analysis if it has one.
pub open spec fn round_text(r: DebateRoundView) -> Seq<char> {
    let responses = ROUND_TITLE@ + decimal_text(r.round_number as nat) + BLOCK_END@ + concat_all(
        response_blocks(r.responses),
    );
    match r.consensus {
        Some(c) => responses + consensus_text(c),
        None => responses,
    }
}

/// The rounds as the report shows them.
pub open spec fn round_texts(rounds: Seq<DebateRoundView>) -> Seq<Seq<char>> {
    Seq::new(rounds.len(), |i: int| round_text(rounds[i]))
}

/// The final synthesis as the report shows it.
pub open spec fn synthesis_text(synthesis: Option<Seq<char>>) -> Seq<char> {
    match synthesis {
        Some(s) => SYNTHESIS_TITLE@ + s + LINE_END@,
        None => Seq::empty(),
    }
}

/// The whole report of a session.
pub open spec fn report_text(s: DebateSessionView) -> Seq<char> {
    header_text(s) + concat_all(round_texts(s.rounds)) + synthesis_text(s.final_synthesis)
}

/// Appends a titled list of bullet lines, or nothing for an empty list.
fn append_listing(out: &mut String, title: &str, items: &Vec<String>)
    ensures
        final(out)@ == old(out)@ + listing_text(title@, texts(items@)),
{
    let ghost start = out@;
    if items.len() == 0 {
        assert(out@ =~= start + listing_text(title@, texts(items@)));
        return ;
    }
    out.append(title);
    let ghost lines = bullets(texts(items@));
    let ghost titled = out@;
    let mut i: usize = 0;
    assert(out@ =~= titled + concat_all(lines.take(0)));
    while i < items.len()
        invariant
            i <= items.len(),
            lines == bullets(texts(items@)),
            out@ == titled + concat_all(lines.take(i as int)),
        decreases items.len() - i,
    {
        proof {
            lemma_concat_all_step(lines, i as int);
        }
        let ghost so_far = out@;
        out.append(BULLET);
        out.append(items[i].as_str());
        out.append(LINE_END);
        assert(out@ =~= so_far + lines[i as int]);
        i += 1;
    }
    assert(lines.take(items.len() as int) =~= lines);
    assert(out@ =~= start + listing_text(title@, texts(items@)));
}

/// Appends the consensus analysis of a round.
fn append_consensus(out: &mut String, c: &ConsensusAnalysis)
    ensures
        final(out)@ == old(out)@ + consensus_text(c@),
{
    let ghost start = out@;
    out.append(CONSENSUS_TITLE);
    out.append(c.avg_confidence.two_decimals().as_str());
    out.append(CONSENSUS_REACHED);
    if c.consensus_reached {
        out.append(TRUE_TEXT);
    } else {
        out.append(FALSE_TEXT);
    }
    out.append(LINE_END);
    append_listing(out, AGREEMENTS_TITLE, &c.agreement_points);
    append_listing(out, CONTENTIONS_TITLE, &c.contention_points);
    out.append(LINE_END);
    assert(out@ =~= start + consensus_text(c@));
}

/// Appends one round.
fn append_round(out: &mut String, round: &DebateRound)
    ensures
        final(out)@ == old(out)@ + round_text(round@),
{
    let ghost start = out@;
    out.append(ROUND_TITLE);
    out.append(decimal_string(round.round_number as u64).as_str());
    out.append(BLOCK_END);
    append_responses(out, &round.responses);
    match &round.consensus {
        Some(c) => {
            append_consensus(out, c);
        },
        None => {},
    }
    assert(out@ =~= start + round_text(round@));
}

impl DebateSession {
    /// The summary report of the debate: a head with topic, number of
    /// peers, progress and state; every recorded round with its responses
    /// and consensus statistics; the final synthesis if there is one.
    pub fn summary_report(&self) -> (report: String)
        ensures
            report@ == report_text(self@),
    {
        let mut report = String::from_str(REPORT_TITLE);
        report.append(self.config.topic.as_str());
        report.append(REPORT_BEES);
        report.append(decimal_string(self.config.num_bees as u64).as_str());
        report.append(REPORT_ROUNDS);
        report.append(decimal_string(self.current_round as u64).as_str());
        report.append(REPORT_OF);
        report.append(decimal_string(self.config.max_rounds as u64).as_str());
        report.append(REPORT_STATE);
        report.append(self.state.name());
        report.append(BLOCK_END);
        assert(report@ =~= header_text(self@));
        let ghost head = report@;
        let ghost blocks = round_texts(round_views(self.rounds@));
        let mut i: usize = 0;
        assert(report@ =~= head + concat_all(blocks.take(0)));
        while i < self.rounds.len()
            invariant
                i <= self.rounds.len(),
                blocks == round_texts(round_views(self.rounds@)),
                report@ == head + concat_all(blocks.take(i as int)),
            decreases self.rounds.len() - i,
        {
            proof {
                lemma_concat_all_step(blocks, i as int);
            }
            append_round(&mut report, &self.rounds[i]);
            assert(report@ =~= head + concat_all(blocks.take(i + 1)));
            i += 1;
        }
        assert(blocks.take(self.rounds.len() as int) =~= blocks);
        match &self.final_synthesis {
            Some(s) => {
                report.append(SYNTHESIS_TITLE);
                report.append(s.as_str());
                report.append(LINE_END);
            },
            None => {},
        }
        assert(report@ =~= report_text(self@));
        report
    }
}

} // verus!
