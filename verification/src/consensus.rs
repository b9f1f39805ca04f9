//! The consensus analyzer: from one round's responses to aggregate
//! statistics and the agreement decision.
//!
//! Positions are compared in lower case. Responses with the same position
//! form a group; groups are kept in the order in which their position first
//! appears.

use vstd::prelude::*;
use vstd::string::*;
use crate::confidence::{Confidence, MILLION};
use crate::text::{
    clone_strings, decimal_string, decimal_text, lowercase, lowercase_of, texts,
};
use crate::types::{clone_opt_string, opt_text};

verus! {

/// A single peer's response in a debate round.
#[derive(Debug)]
pub struct BeeResponse {
    /// Which peer produced this response.
    pub bee_id: String,
    /// The peer's endpoint.
    pub endpoint: String,
    /// The text of the response.
    pub content: String,
    /// How sure the peer is of its position.
    pub confidence: Confidence,
    /// The peer's stance, free text.
    pub position: Option<String>,
    /// Key points taken from the response.
    pub key_points: Vec<String>,
}

/// The mathematical model of `BeeResponse`: texts as `Seq<char>`, lists as
/// `Seq`.
pub struct BeeResponseView {
    pub bee_id: Seq<char>,
    pub endpoint: Seq<char>,
    pub content: Seq<char>,
    pub confidence: Confidence,
    pub position: Option<Seq<char>>,
    pub key_points: Seq<Seq<char>>,
}

impl View for BeeResponse {
    type V = BeeResponseView;

    open spec fn view(&self) -> BeeResponseView {
        BeeResponseView {
            bee_id: self.bee_id@,
            endpoint: self.endpoint@,
            content: self.content@,
            confidence: self.confidence,
            position: opt_text(self.position),
            key_points: texts(self.key_points@),
        }
    }
}

impl Clone for BeeResponse {
    fn clone(&self) -> (r: Self)
        ensures
            r@ == self@,
    {
        BeeResponse {
            bee_id: self.bee_id.clone(),
            endpoint: self.endpoint.clone(),
            content: self.content.clone(),
            confidence: self.confidence,
            position: clone_opt_string(&self.position),
            key_points: clone_strings(&self.key_points),
        }
    }
}

/// The views of a list of responses.
pub open spec fn response_views(v: Seq<BeeResponse>) -> Seq<BeeResponseView> {
    Seq::new(v.len(), |i: int| v[i]@)
}

/// What a round's responses agree and disagree on.
#[derive(Debug)]
pub struct ConsensusAnalysis {
    /// The mean confidence of all responses, cut to whole millionths.
    pub avg_confidence: Confidence,
    /// The positions that enough peers share, each with its share.
    pub agreement_points: Vec<String>,
    /// The positions that too few peers share.
    pub contention_points: Vec<String>,
    /// Topics that no peer addressed. Always empty.
    pub blind_spots: Vec<String>,
    /// Whether the round reached consensus.
    pub consensus_reached: bool,
}

/// The mathematical model of `ConsensusAnalysis`: texts as `Seq<char>`, lists as
/// `Seq`.
pub struct ConsensusAnalysisView {
    pub avg_confidence: Confidence,
    pub agreement_points: Seq<Seq<char>>,
    pub contention_points: Seq<Seq<char>>,
    pub blind_spots: Seq<Seq<char>>,
    pub consensus_reached: bool,
}

impl View for ConsensusAnalysis {
    type V = ConsensusAnalysisView;

    open spec fn view(&self) -> ConsensusAnalysisView {
        ConsensusAnalysisView {
            avg_confidence: self.avg_confidence,
            agreement_points: texts(self.agreement_points@),
            contention_points: texts(self.contention_points@),
            blind_spots: texts(self.blind_spots@),
            consensus_reached: self.consensus_reached,
        }
    }
}

impl Clone for ConsensusAnalysis {
    fn clone(&self) -> (r: Self)
        ensures
            r@ == self@,
    {
        ConsensusAnalysis {
            avg_confidence: self.avg_confidence,
            agreement_points: clone_strings(&self.agreement_points),
            contention_points: clone_strings(&self.contention_points),
            blind_spots: clone_strings(&self.blind_spots),
            consensus_reached: self.consensus_reached,
        }
    }
}

/// The view of an optional analysis.
pub open spec fn opt_consensus_view(o: Option<ConsensusAnalysis>) -> Option<
    ConsensusAnalysisView,
> {
    match o {
        Some(c) => Some(c@),
        None => None,
    }
}

/// A position in lower case and the number of responses that hold it.
pub struct Group {
    pub key: Seq<char>,
    pub count: nat,
}

/// The sum of the responses' confidences, in millionths.
pub open spec fn confidence_sum(rs: Seq<BeeResponseView>) -> nat
    decreases rs.len(),
{
    if rs.len() == 0 {
        0
    } else {
        confidence_sum(rs.drop_last()) + rs.last().confidence.millionths as nat
    }
}

/// The mean confidence in whole millionths; zero for no responses.
pub open spec fn average_confidence(rs: Seq<BeeResponseView>) -> nat {
    if rs.len() == 0 {
        0
    } else {
        confidence_sum(rs) / rs.len()
    }
}

/// The index of the group for `key`, or `groups.len()` if there is none.
pub open spec fn group_position(groups: Seq<Group>, key: Seq<char>) -> int
    decreases groups.len(),
{
    if groups.len() == 0 {
        0
    } else {
        let before = group_position(groups.drop_last(), key);
        if before < groups.len() - 1 {
            before
        } else if groups.last().key == key {
            groups.len() - 1
        } else {
            groups.len() as int
        }
    }
}

/// Counts one more response for `key`: its group grows by one, or a new group
/// of one is added at the end.
pub open spec fn bump(groups: Seq<Group>, key: Seq<char>) -> Seq<Group> {
    let at = group_position(groups, key);
    if at < groups.len() {
        groups.update(at, Group { key: key, count: groups[at].count + 1 })
    } else {
        groups.push(Group { key: key, count: 1 })
    }
}

/// The groups of the responses that state a position, by lower-cased
/// position, in order of first appearance.
pub open spec fn tally(rs: Seq<BeeResponseView>) -> Seq<Group>
    decreases rs.len(),
{
    if rs.len() == 0 {
        Seq::empty()
    } else {
        let before = tally(rs.drop_last());
        match rs.last().position {
            Some(p) => bump(before, lowercase_of(p)),
            None => before,
        }
    }
}

/// A group of `count` among `total` responses is an agreement when its share
/// is at least the threshold.
pub open spec fn agrees(count: nat, total: nat, threshold: Confidence) -> bool {
    count * 1_000_000 >= threshold.millionths * total
}

/// How a group is reported: `<position> (<count>/<total> agree)`.
pub open spec fn point_text(group: Group, total: nat) -> Seq<char> {
    group.key + " ("@ + decimal_text(group.count) + "/"@ + decimal_text(total) + " agree)"@
}

/// The reports of the groups that agree (`agreeing`) or that do not, in group
/// order.
pub open spec fn points(groups: Seq<Group>, total: nat, threshold: Confidence, agreeing: bool) -> Seq<
    Seq<char>,
>
    decreases groups.len(),
{
    if groups.len() == 0 {
        Seq::empty()
    } else {
        let before = points(groups.drop_last(), total, threshold, agreeing);
        if agrees(groups.last().count, total, threshold) == agreeing {
            before.push(point_text(groups.last(), total))
        } else {
            before
        }
    }
}

/// The analysis of a round's responses against a threshold.
pub open spec fn consensus_of(rs: Seq<BeeResponseView>, threshold: Confidence) -> ConsensusAnalysisView {
    let average = average_confidence(rs);
    let agreement = points(tally(rs), rs.len(), threshold, true);
    ConsensusAnalysisView {
        avg_confidence: Confidence { millionths: average as u32 },
        agreement_points: agreement,
        contention_points: points(tally(rs), rs.len(), threshold, false),
        blind_spots: Seq::empty(),
        consensus_reached: average >= threshold.millionths && agreement.len() > 0,
    }
}

/// The sum of confidences is at most `u32::MAX` for every response.
pub proof fn lemma_confidence_sum_bound(rs: Seq<BeeResponseView>)
    ensures
        confidence_sum(rs) <= rs.len() * 0xffff_ffff,
    decreases rs.len(),
{
    if rs.len() > 0 {
        lemma_confidence_sum_bound(rs.drop_last());
        assert((rs.len() - 1) * 0xffff_ffff + 0xffff_ffff == rs.len() * 0xffff_ffff)
            by (nonlinear_arith);
    }
}

/// What `group_position` finds: the first group with the key, if any.
pub proof fn lemma_group_position(groups: Seq<Group>, key: Seq<char>)
    ensures
        0 <= group_position(groups, key) <= groups.len(),
        group_position(groups, key) < groups.len() ==> groups[group_position(groups, key)].key
            == key,
        forall|j: int| 0 <= j < group_position(groups, key) ==> groups[j].key != key,
    decreases groups.len(),
{
    if groups.len() > 0 {
        let front = groups.drop_last();
        lemma_group_position(front, key);
        assert forall|j: int| 0 <= j < group_position(groups, key) implies groups[j].key
            != key by {
            if j < front.len() {
                assert(front[j] == groups[j]);
            }
        }
    }
}

/// The groups that a list of keys and a list of counts of the same length
/// stand for.
pub open spec fn groups_of(keys: Seq<String>, counts: Seq<usize>) -> Seq<Group> {
    Seq::new(keys.len(), |j: int| Group { key: keys[j]@, count: counts[j] as nat })
}

/// The mean confidence of the responses, zero if there are none.
pub fn mean_confidence(responses: &[BeeResponse]) -> (mean: Confidence)
    ensures
        mean.millionths == average_confidence(response_views(responses@)),
{
    let ghost views = response_views(responses@);
    let n = responses.len();
    if n == 0 {
        return Confidence { millionths: 0 };
    }
    let mut sum: u128 = 0;
    let mut i: usize = 0;
    while i < n
        invariant
            i <= n,
            n == responses.len(),
            views == response_views(responses@),
            sum == confidence_sum(views.take(i as int)),
            sum <= i * 0xffff_ffff,
        decreases n - i,
    {
        proof {
            assert(views.take(i + 1).drop_last() =~= views.take(i as int));
            assert(views.take(i + 1).last() == responses@[i as int]@);
            lemma_confidence_sum_bound(views.take(i + 1));
            assert(i * 0xffff_ffff <= 0xffff_ffff_ffff_ffff * 0xffff_ffff) by (nonlinear_arith)
                requires
                    i <= 0xffff_ffff_ffff_ffff,
            ;
        }
        sum = sum + responses[i].confidence.millionths as u128;
        i += 1;
    }
    proof {
        assert(views.take(n as int) =~= views);
        assert(sum / (n as u128) <= 0xffff_ffff) by (nonlinear_arith)
            requires
                sum <= n * 0xffff_ffff,
                n > 0,
        ;
    }
    Confidence { millionths: (sum / (n as u128)) as u32 }
}

/// Groups the responses that state a position by that position in lower
/// case, counting each group, in order of first appearance.
pub fn tally_responses(responses: &[BeeResponse]) -> (r: (Vec<String>, Vec<usize>))
    ensures
        r.0@.len() == r.1@.len(),
        groups_of(r.0@, r.1@) == tally(response_views(responses@)),
{
    let ghost views = response_views(responses@);
    let mut keys: Vec<String> = Vec::new();
    let mut counts: Vec<usize> = Vec::new();
    let mut i: usize = 0;
    assert(groups_of(keys@, counts@) =~= tally(views.take(0)));
    while i < responses.len()
        invariant
            i <= responses.len(),
            views == response_views(responses@),
            keys@.len() == counts@.len(),
            groups_of(keys@, counts@) == tally(views.take(i as int)),
            forall|j: int| 0 <= j < counts@.len() ==> counts@[j] <= i,
        decreases responses.len() - i,
    {
        let ghost before = groups_of(keys@, counts@);
        proof {
            assert(views.take(i + 1).drop_last() =~= views.take(i as int));
            assert(views.take(i + 1).last() == responses@[i as int]@);
        }
        match &responses[i].position {
            Some(position) => {
                let key = lowercase(position.as_str());
                let mut at: usize = 0;
                while at < keys.len() && keys[at] != key
                    invariant
                        at <= keys.len(),
                        forall|j: int| 0 <= j < at ==> keys@[j]@ != key@,
                    decreases keys.len() - at,
                {
                    at += 1;
                }
                proof {
                    lemma_group_position(before, key@);
                    let found = group_position(before, key@);
                    if found < at {
                        assert(before[found].key == keys@[found]@);
                    }
                    if at < found {
                        assert(before[at as int].key == keys@[at as int]@);
                    }
                    assert(found == at);
                }
                if at < keys.len() {
                    let grown = counts[at] + 1;
                    counts.set(at, grown);
                    assert(groups_of(keys@, counts@) =~= bump(before, key@));
                } else {
                    keys.push(key);
                    counts.push(1);
                    assert(groups_of(keys@, counts@) =~= bump(before, key@));
                }
            },
            None => {},
        }
        i += 1;
    }
    assert(views.take(responses.len() as int) =~= views);
    (keys, counts)
}

/// Writes `<position> (<count>/<total> agree)` for each group whose share of
/// `total` reaches the threshold (`agreeing`) or for each that falls short.
pub fn render_points(
    keys: &Vec<String>,
    counts: &Vec<usize>,
    total: usize,
    threshold: Confidence,
    agreeing: bool,
) -> (r: Vec<String>)
    requires
        keys@.len() == counts@.len(),
    ensures
        texts(r@) == points(groups_of(keys@, counts@), total as nat, threshold, agreeing),
{
    let ghost groups = groups_of(keys@, counts@);
    let mut out: Vec<String> = Vec::new();
    let mut j: usize = 0;
    assert(texts(out@) =~= points(groups.take(0), total as nat, threshold, agreeing));
    while j < keys.len()
        invariant
            j <= keys.len(),
            keys@.len() == counts@.len(),
            groups == groups_of(keys@, counts@),
            texts(out@) == points(groups.take(j as int), total as nat, threshold, agreeing),
        decreases keys.len() - j,
    {
        proof {
            assert(groups.take(j + 1).drop_last() =~= groups.take(j as int));
            assert(groups.take(j + 1).last() == groups[j as int]);
        }
        let count = counts[j];
        proof {
            assert(count * 1_000_000 <= 0xffff_ffff_ffff_ffff * 1_000_000) by (nonlinear_arith)
                requires
                    count <= 0xffff_ffff_ffff_ffff,
            ;
            assert(threshold.millionths * total <= 0xffff_ffff * 0xffff_ffff_ffff_ffff)
                by (nonlinear_arith)
                requires
                    threshold.millionths <= 0xffff_ffff,
                    total <= 0xffff_ffff_ffff_ffff,
            ;
        }
        let share = (count as u128) * (MILLION as u128);
        let bar = (threshold.millionths as u128) * (total as u128);
        if (share >= bar) == agreeing {
            let mut line = keys[j].clone();
            proof {
                reveal_strlit(" (");
                reveal_strlit("/");
                reveal_strlit(" agree)");
            }
            line.append(" (");
            line.append(decimal_string(count as u64).as_str());
            line.append("/");
            line.append(decimal_string(total as u64).as_str());
            line.append(" agree)");
            assert(line@ =~= point_text(groups[j as int], total as nat));
            let ghost old_out = out@;
            out.push(line);
            assert(texts(out@) =~= texts(old_out).push(line@));
        }
        j += 1;
    }
    assert(groups.take(keys.len() as int) =~= groups);
    out
}

/// Comparing the mean with a threshold after cutting it to whole
/// millionths is the same as comparing the exact mean.
pub proof fn lemma_average_reaches(rs: Seq<BeeResponseView>, threshold: Confidence)
    requires
        rs.len() > 0,
    ensures
        average_confidence(rs) >= threshold.millionths <==> confidence_sum(rs)
            >= threshold.millionths * rs.len(),
{
    let sum = confidence_sum(rs) as int;
    let n = rs.len() as int;
    let t = threshold.millionths as int;
    assert(sum / n >= t <==> sum >= t * n) by (nonlinear_arith)
        requires
            n > 0,
            sum >= 0,
            t >= 0,
    ;
}

/// Without responses the mean confidence is zero and nothing agrees, so
/// there is no consensus.
pub proof fn lemma_no_responses_no_consensus(threshold: Confidence)
    ensures
        consensus_of(Seq::empty(), threshold).avg_confidence.millionths == 0,
        consensus_of(Seq::empty(), threshold).agreement_points.len() == 0,
        consensus_of(Seq::empty(), threshold).contention_points.len() == 0,
        !consensus_of(Seq::empty(), threshold).consensus_reached,
{
}

/// Every group is reported once, as an agreement or as a contention.
pub proof fn lemma_points_partition(groups: Seq<Group>, total: nat, threshold: Confidence)
    ensures
        points(groups, total, threshold, true).len() + points(groups, total, threshold, false).len()
            == groups.len(),
    decreases groups.len(),
{
    if groups.len() > 0 {
        lemma_points_partition(groups.drop_last(), total, threshold);
    }
}

/// The response states the position `key`, case aside.
pub open spec fn holds(r: BeeResponseView, key: Seq<char>) -> bool {
    r.position matches Some(p) && lowercase_of(p) == key
}

/// The number of responses that state the position `key`, case aside.
pub open spec fn holders(rs: Seq<BeeResponseView>, key: Seq<char>) -> nat
    decreases rs.len(),
{
    if rs.len() == 0 {
        0
    } else {
        holders(rs.drop_last(), key) + if holds(rs.last(), key) {
            1nat
        } else {
            0nat
        }
    }
}

/// The groups have distinct positions and each counts the responses that
/// hold its position.
pub open spec fn counts_holders(groups: Seq<Group>, rs: Seq<BeeResponseView>) -> bool {
    &&& forall|i: int, j: int|
        0 <= i < j < groups.len() ==> (#[trigger] groups[i]).key != (#[trigger] groups[j]).key
    &&& forall|i: int|
        0 <= i < groups.len() ==> (#[trigger] groups[i]).count == holders(rs, groups[i].key)
            && groups[i].count > 0
    &&& forall|key: Seq<char>|
        group_position(groups, key) >= groups.len() ==> #[trigger] holders(rs, key) == 0
}

/// What the tally is: one group for every position that some response
/// holds, no position twice, each group counting the responses that hold
/// its position.
pub proof fn lemma_tally_counts_holders(rs: Seq<BeeResponseView>)
    ensures
        counts_holders(tally(rs), rs),
    decreases rs.len(),
{
    if rs.len() > 0 {
        let front = rs.drop_last();
        let before = tally(front);
        lemma_tally_counts_holders(front);
        match rs.last().position {
            Some(p) => {
                let key = lowercase_of(p);
                let after = bump(before, key);
                let at = group_position(before, key);
                lemma_group_position(before, key);
                assert forall|i: int, j: int| 0 <= i < j < after.len() implies (
                #[trigger] after[i]).key != (#[trigger] after[j]).key by {
                    if at < before.len() {
                        assert(after[i].key == before[i].key);
                        assert(after[j].key == before[j].key);
                    } else if j < before.len() {
                        assert(after[i] == before[i]);
                        assert(after[j] == before[j]);
                    } else {
                        assert(after[i] == before[i]);
                    }
                }
                assert forall|i: int| 0 <= i < after.len() implies (#[trigger] after[i]).count
                    == holders(rs, after[i].key) && after[i].count > 0 by {
                    if at < before.len() {
                        if i == at {
                            assert(before[at].count == holders(front, key));
                        } else {
                            assert(after[i] == before[i]);
                            assert(before[i].key != before[at].key);
                        }
                    } else if i < before.len() {
                        assert(after[i] == before[i]);
                    } else {
                        assert(holders(front, key) == 0);
                    }
                }
                assert forall|other: Seq<char>| group_position(after, other)
                    >= after.len() implies #[trigger] holders(rs, other) == 0 by {
                    lemma_group_position(after, other);
                    lemma_group_position(before, other);
                    let found = group_position(before, other);
                    if found < before.len() {
                        assert(after[found].key == other);
                    }
                    if other == key {
                        if at < before.len() {
                            assert(after[at].key == key);
                        } else {
                            assert(after[before.len() as int].key == key);
                        }
                    }
                    assert(found >= before.len());
                    assert(other != key);
                    assert(holders(front, other) == 0);
                    assert(!holds(rs.last(), other));
                }
            },
            None => {
                assert forall|key: Seq<char>| group_position(before, key)
                    >= before.len() implies #[trigger] holders(rs, key) == 0 by {
                    assert(holders(front, key) == 0);
                }
            },
        }
    } else {
        assert forall|key: Seq<char>| group_position(tally(rs), key)
            >= tally(rs).len() implies #[trigger] holders(rs, key) == 0 by {}
    }
}

} // verus!
