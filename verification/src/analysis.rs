//! Analysis aggregation: fan-in of per-source token assessments into one
//! combined risk and recommendation result.
//!
//! Each signal source either succeeds with an [`AnalysisResult`] or fails;
//! failed sources are excluded from combination and the whole aggregation
//! fails only when no source succeeded.

use vstd::prelude::*;
use vstd::string::StringExecFns;

use crate::telemetry::MetricsCollector;
use crate::types::{AnalysisResult, CoralError, RiskLevel, SCORE_ONE, TokenId, TradeRecommendation,
    risk_rank, spec_risk_max};
use crate::util::{now_timestamp, now_timestamp_millis};

verus! {

/// Combined score above which a low-risk token is recommended for buying,
/// on the [`SCORE_ONE`] scale. A policy constant.
pub const BUY_CONFIDENCE_THRESHOLD: u64 = 800_000;

/// Per-source analysis metrics on the [`SCORE_ONE`] scale.
#[derive(Clone, Copy, PartialEq, Eq, Structural, Debug)]
pub struct AnalysisMetrics {
    pub confidence_score: u64,
    pub risk_score: u64,
    pub reliability_score: u64,
}

impl AnalysisMetrics {
    /// Every sub-score stays on the unit scale.
    pub open spec fn wf(&self) -> bool {
        &&& self.confidence_score <= SCORE_ONE
        &&& self.risk_score <= SCORE_ONE
        &&& self.reliability_score <= SCORE_ONE
    }

    /// Combines the sub-scores with the given weights, clamped to the
    /// unit scale.
    pub fn calculate_weighted_score(&self, weights: &AnalysisWeights) -> (r: u64)
        requires
            self.wf(),
            weights.wf(),
        ensures
            r == spec_weighted_score(*self, *weights),
            r <= SCORE_ONE,
    {
        proof {
            assert(self.confidence_score * weights.confidence <= 1_000_000_000_000)
                by (nonlinear_arith)
                requires
                    self.confidence_score <= 1_000_000,
                    weights.confidence <= 1_000_000,
            ;
            assert(self.risk_score * weights.risk <= 1_000_000_000_000) by (nonlinear_arith)
                requires
                    self.risk_score <= 1_000_000,
                    weights.risk <= 1_000_000,
            ;
            assert(self.reliability_score * weights.reliability <= 1_000_000_000_000)
                by (nonlinear_arith)
                requires
                    self.reliability_score <= 1_000_000,
                    weights.reliability <= 1_000_000,
            ;
        }
        let raw: u64 = (self.confidence_score * weights.confidence + self.risk_score
            * weights.risk + self.reliability_score * weights.reliability) / SCORE_ONE;
        if raw > SCORE_ONE {
            SCORE_ONE
        } else {
            raw
        }
    }
}

/// Relative weights of the per-source metrics, on the [`SCORE_ONE`]
/// scale. Weights should sum to [`SCORE_ONE`] so combined scores stay on
/// the unit scale; the engine does not assume it and clamps instead.
#[derive(Clone, Copy, PartialEq, Eq, Structural, Debug)]
pub struct AnalysisWeights {
    pub confidence: u64,
    pub risk: u64,
    pub reliability: u64,
}

impl AnalysisWeights {
    /// Every weight is a fraction of the unit scale.
    pub open spec fn wf(&self) -> bool {
        &&& self.confidence <= SCORE_ONE
        &&& self.risk <= SCORE_ONE
        &&& self.reliability <= SCORE_ONE
    }
}

impl Default for AnalysisWeights {
    /// The default 0.4 / 0.4 / 0.2 split.
    fn default() -> (w: AnalysisWeights)
        ensures
            w.confidence == 400_000,
            w.risk == 400_000,
            w.reliability == 200_000,
            w.wf(),
            w.confidence + w.risk + w.reliability == SCORE_ONE,
    {
        AnalysisWeights { confidence: 400_000, risk: 400_000, reliability: 200_000 }
    }
}

/// Weighted combination of per-source metrics, clamped to the unit scale.
pub open spec fn spec_weighted_score(m: AnalysisMetrics, w: AnalysisWeights) -> int {
    let raw = (m.confidence_score * w.confidence + m.risk_score * w.risk + m.reliability_score
        * w.reliability) / (SCORE_ONE as int);
    if raw > SCORE_ONE {
        SCORE_ONE as int
    } else {
        raw
    }
}

/// For weights summing to one and metrics on the unit scale, the weighted
/// score lies on the unit scale even before clamping.
pub proof fn lemma_weighted_score_unit_range(m: AnalysisMetrics, w: AnalysisWeights)
    requires
        m.wf(),
        w.wf(),
        w.confidence + w.risk + w.reliability == SCORE_ONE,
    ensures
        0 <= spec_weighted_score(m, w) <= SCORE_ONE,
        spec_weighted_score(m, w) == (m.confidence_score * w.confidence + m.risk_score * w.risk
            + m.reliability_score * w.reliability) / (SCORE_ONE as int),
{
    assert(m.confidence_score * w.confidence <= SCORE_ONE * w.confidence) by (nonlinear_arith)
        requires
            m.confidence_score <= SCORE_ONE,
            0 <= w.confidence,
    ;
    assert(m.risk_score * w.risk <= SCORE_ONE * w.risk) by (nonlinear_arith)
        requires
            m.risk_score <= SCORE_ONE,
            0 <= w.risk,
    ;
    assert(m.reliability_score * w.reliability <= SCORE_ONE * w.reliability) by (nonlinear_arith)
        requires
            m.reliability_score <= SCORE_ONE,
            0 <= w.reliability,
    ;
    assert(SCORE_ONE * w.confidence + SCORE_ONE * w.risk + SCORE_ONE * w.reliability == SCORE_ONE
        * (w.confidence + w.risk + w.reliability)) by (nonlinear_arith);
    assert((m.confidence_score * w.confidence + m.risk_score * w.risk + m.reliability_score
        * w.reliability) / (SCORE_ONE as int) <= SCORE_ONE) by {
        assert(m.confidence_score * w.confidence + m.risk_score * w.risk + m.reliability_score
            * w.reliability <= SCORE_ONE * (SCORE_ONE as int));
        assert(forall|x: int|
            0 <= x <= SCORE_ONE * (SCORE_ONE as int) ==> #[trigger] (x / (SCORE_ONE as int))
                <= SCORE_ONE) by (nonlinear_arith);
    }
    assert(0 <= m.confidence_score * w.confidence) by (nonlinear_arith)
        requires
            0 <= m.confidence_score,
            0 <= w.confidence,
    ;
    assert(0 <= m.risk_score * w.risk) by (nonlinear_arith)
        requires
            0 <= m.risk_score,
            0 <= w.risk,
    ;
    assert(0 <= m.reliability_score * w.reliability) by (nonlinear_arith)
        requires
            0 <= m.reliability_score,
            0 <= w.reliability,
    ;
}

/// The results of the sources that succeeded, in order.
pub open spec fn spec_succeeded(outcomes: Seq<Option<AnalysisResult>>) -> Seq<AnalysisResult>
    decreases outcomes.len(),
{
    if outcomes.len() == 0 {
        Seq::empty()
    } else {
        let prefix = spec_succeeded(outcomes.drop_last());
        match outcomes.last() {
            Some(a) => prefix.push(a),
            None => prefix,
        }
    }
}

/// Sum of the authenticity scores of a set of results.
pub open spec fn spec_sum_scores(s: Seq<AnalysisResult>) -> int
    decreases s.len(),
{
    if s.len() == 0 {
        0
    } else {
        spec_sum_scores(s.drop_last()) + s.last().authenticity_score
    }
}

/// The most severe risk level among a set of results; `Low` for none.
pub open spec fn spec_max_risk(s: Seq<AnalysisResult>) -> RiskLevel
    decreases s.len(),
{
    if s.len() == 0 {
        RiskLevel::Low
    } else {
        spec_risk_max(spec_max_risk(s.drop_last()), s.last().risk_level)
    }
}

/// How many results flagged `High` or `Extreme` risk.
pub open spec fn spec_flagged_count(s: Seq<AnalysisResult>) -> nat
    decreases s.len(),
{
    if s.len() == 0 {
        0
    } else {
        spec_flagged_count(s.drop_last()) + if risk_rank(s.last().risk_level) >= 2 {
            1nat
        } else {
            0nat
        }
    }
}

/// Plain average of the authenticity scores, rounded down.
pub open spec fn spec_combined_score(s: Seq<AnalysisResult>) -> int
    recommends
        s.len() > 0,
{
    spec_sum_scores(s) / (s.len() as int)
}

/// The aggregate risk level bounds every individual level and is attained
/// by one of them: one `Extreme` source among `Low` results dominates.
pub proof fn lemma_max_risk_dominates(s: Seq<AnalysisResult>)
    requires
        s.len() > 0,
    ensures
        forall|i: int|
            0 <= i < s.len() ==> risk_rank(#[trigger] s[i].risk_level) <= risk_rank(
                spec_max_risk(s),
            ),
        exists|i: int| 0 <= i < s.len() && s[i].risk_level == spec_max_risk(s),
    decreases s.len(),
{
    if s.len() == 1 {
        assert(s[0] == s.last());
    } else {
        lemma_max_risk_dominates(s.drop_last());
        let prefix = s.drop_last();
        assert forall|i: int|
            0 <= i < s.len() implies risk_rank(#[trigger] s[i].risk_level) <= risk_rank(
            spec_max_risk(s),
        ) by {
            if i < s.len() - 1 {
                assert(s[i] == prefix[i]);
                assert(risk_rank(prefix[i].risk_level) <= risk_rank(spec_max_risk(prefix)));
            }
        }
        if risk_rank(spec_max_risk(prefix)) >= risk_rank(s.last().risk_level) {
            let w = choose|i: int|
                0 <= i < prefix.len() && prefix[i].risk_level == spec_max_risk(prefix);
            assert(s[w].risk_level == spec_max_risk(s));
        } else {
            assert(s[s.len() - 1].risk_level == spec_max_risk(s));
        }
    }
}

/// Whether one source outcome counts toward the succeeded set.
pub open spec fn spec_outcome_count(x: Option<AnalysisResult>) -> nat {
    if x is Some {
        1nat
    } else {
        0nat
    }
}

/// The score one source outcome contributes to the sum.
pub open spec fn spec_outcome_score(x: Option<AnalysisResult>) -> int {
    match x {
        Some(a) => a.authenticity_score as int,
        None => 0,
    }
}

/// The risk level one source outcome contributes; `Low` (the identity of
/// the maximum) for a failed source.
pub open spec fn spec_outcome_risk(x: Option<AnalysisResult>) -> RiskLevel {
    match x {
        Some(a) => a.risk_level,
        None => RiskLevel::Low,
    }
}

/// Whether one source outcome flags high or extreme risk.
pub open spec fn spec_outcome_flag(x: Option<AnalysisResult>) -> nat {
    match x {
        Some(a) => if risk_rank(a.risk_level) >= 2 {
            1nat
        } else {
            0nat
        },
        None => 0nat,
    }
}

/// One appended result shifts each combination statistic by exactly its
/// own contribution.
proof fn lemma_succ_stats_push(s: Seq<AnalysisResult>, a: AnalysisResult)
    ensures
        spec_sum_scores(s.push(a)) == spec_sum_scores(s) + a.authenticity_score,
        spec_max_risk(s.push(a)) == spec_risk_max(spec_max_risk(s), a.risk_level),
        spec_flagged_count(s.push(a)) == spec_flagged_count(s) + if risk_rank(a.risk_level)
            >= 2 {
            1nat
        } else {
            0nat
        },
{
    assert(s.push(a).drop_last() =~= s);
}

/// Dropping the outcome at position `i` removes exactly its contribution
/// from each combination statistic.
proof fn lemma_outcome_stats_remove(t: Seq<Option<AnalysisResult>>, i: int)
    requires
        0 <= i < t.len(),
    ensures
        spec_succeeded(t).len() == spec_succeeded(t.remove(i)).len() + spec_outcome_count(t[i]),
        spec_sum_scores(spec_succeeded(t)) == spec_sum_scores(spec_succeeded(t.remove(i)))
            + spec_outcome_score(t[i]),
        spec_max_risk(spec_succeeded(t)) == spec_risk_max(
            spec_max_risk(spec_succeeded(t.remove(i))),
            spec_outcome_risk(t[i]),
        ),
        spec_flagged_count(spec_succeeded(t)) == spec_flagged_count(spec_succeeded(t.remove(i)))
            + spec_outcome_flag(t[i]),
    decreases t.len(),
{
    let dl = t.drop_last();
    if i == t.len() - 1 {
        assert(t.remove(i) =~= dl);
        match t.last() {
            Some(a) => {
                lemma_succ_stats_push(spec_succeeded(dl), a);
            },
            None => {},
        }
    } else {
        lemma_outcome_stats_remove(dl, i);
        let r = t.remove(i);
        assert(r.drop_last() =~= dl.remove(i));
        assert(r.last() == t.last());
        match t.last() {
            Some(a) => {
                lemma_succ_stats_push(spec_succeeded(dl), a);
                lemma_succ_stats_push(spec_succeeded(dl.remove(i)), a);
            },
            None => {},
        }
    }
}

/// The fan-in barrier is order-insensitive: for one multiset of
/// per-source outcomes, whatever order the sources completed in, the
/// succeeded count (so whether aggregation succeeds at all), the score
/// sum (so the combined average), the aggregate risk level and the count
/// of risk-flagging sources are all the same.
pub proof fn lemma_combination_order_independent(
    o1: Seq<Option<AnalysisResult>>,
    o2: Seq<Option<AnalysisResult>>,
)
    requires
        o1.to_multiset() == o2.to_multiset(),
    ensures
        spec_succeeded(o1).len() == spec_succeeded(o2).len(),
        spec_sum_scores(spec_succeeded(o1)) == spec_sum_scores(spec_succeeded(o2)),
        spec_max_risk(spec_succeeded(o1)) == spec_max_risk(spec_succeeded(o2)),
        spec_flagged_count(spec_succeeded(o1)) == spec_flagged_count(spec_succeeded(o2)),
    decreases o1.len(),
{
    broadcast use vstd::seq_lib::group_to_multiset_ensures;

    o1.to_multiset_ensures();
    o2.to_multiset_ensures();
    assert(o1.len() == o2.len());
    if o1.len() > 0 {
        let last_i = o1.len() - 1;
        let x = o1.last();
        assert(o1.contains(x));
        assert(o1.to_multiset().count(x) > 0);
        assert(o2.to_multiset().count(x) > 0);
        assert(o2.contains(x));
        let j = choose|j: int| 0 <= j < o2.len() && o2[j] == x;
        let dl = o1.drop_last();
        assert(o1.remove(last_i) =~= dl);
        assert(dl.to_multiset() =~= o1.to_multiset().remove(x));
        let r2 = o2.remove(j);
        assert(r2.to_multiset() =~= o2.to_multiset().remove(x));
        lemma_combination_order_independent(dl, r2);
        lemma_outcome_stats_remove(o1, last_i);
        lemma_outcome_stats_remove(o2, j);
    }
}

/// The average of unit-scale scores is itself on the unit scale.
pub proof fn lemma_combined_score_unit_range(s: Seq<AnalysisResult>)
    requires
        s.len() > 0,
        forall|i: int| 0 <= i < s.len() ==> (#[trigger] s[i]).wf(),
    ensures
        0 <= spec_combined_score(s) <= SCORE_ONE,
{
    lemma_sum_scores_bound(s);
    assert(spec_sum_scores(s) / (s.len() as int) <= SCORE_ONE) by (nonlinear_arith)
        requires
            s.len() > 0,
            0 <= spec_sum_scores(s) <= s.len() * (SCORE_ONE as int),
    ;
    assert(0 <= spec_sum_scores(s) / (s.len() as int)) by (nonlinear_arith)
        requires
            s.len() > 0,
            0 <= spec_sum_scores(s),
    ;
}

/// Unit-scale scores sum to at most the count times the unit.
pub proof fn lemma_sum_scores_bound(s: Seq<AnalysisResult>)
    requires
        forall|i: int| 0 <= i < s.len() ==> (#[trigger] s[i]).wf(),
    ensures
        0 <= spec_sum_scores(s) <= s.len() * (SCORE_ONE as int),
    decreases s.len(),
{
    if s.len() > 0 {
        lemma_sum_scores_bound(s.drop_last());
        assert((s.len() - 1) * (SCORE_ONE as int) + SCORE_ONE == s.len() * (SCORE_ONE as int))
            by (nonlinear_arith);
    }
}

/// The total decision table: what the engine recommends for a combined
/// score, an aggregate risk level, and a count of risk-flagging sources.
/// High or extreme risk is avoided with one reason per flagging source; a
/// low-risk, high-confidence token is bought; everything else is held.
pub open spec fn spec_recommendation_ok(
    rec: TradeRecommendation,
    score: u64,
    risk: RiskLevel,
    flagged: nat,
) -> bool {
    if risk_rank(risk) >= 2 {
        &&& rec matches TradeRecommendation::Avoid { reasons, risk_factors }
        &&& reasons@.len() == flagged
        &&& forall|i: int|
            0 <= i < reasons@.len() ==> (#[trigger] reasons@[i])@
                == "source flagged high or extreme risk"@
        &&& risk_factors@.len() == 1
        &&& risk_factors@[0]@ == "aggregate risk at or above high"@
    } else if risk is Low && score >= BUY_CONFIDENCE_THRESHOLD {
        &&& rec matches TradeRecommendation::Buy {
            confidence,
            suggested_amount,
            entry_price,
            stop_loss,
            take_profit,
        }
        &&& confidence == score
        &&& suggested_amount == 0
        &&& entry_price == 0
        &&& stop_loss == 0
        &&& take_profit == 0
    } else {
        &&& rec matches TradeRecommendation::Hold { duration, reevaluation_price }
        &&& duration@ == "24h"@
        &&& reevaluation_price == 0
    }
}

/// Applies the decision table. Sizing and price targets are left to the
/// caller's policy: a buy carries the combined score as its confidence
/// and zeroed sizing fields.
pub fn derive_recommendation(score: u64, risk: RiskLevel, flagged: usize) -> (rec:
    TradeRecommendation)
    ensures
        spec_recommendation_ok(rec, score, risk, flagged as nat),
{
    if risk.rank() >= 2 {
        let mut reasons: Vec<String> = Vec::new();
        let mut k: usize = 0;
        while k < flagged
            invariant
                k <= flagged,
                reasons@.len() == k,
                forall|i: int|
                    0 <= i < k ==> (#[trigger] reasons@[i])@
                        == "source flagged high or extreme risk"@,
            decreases flagged - k,
        {
            reasons.push(String::from_str("source flagged high or extreme risk"));
            k += 1;
        }
        let mut risk_factors: Vec<String> = Vec::new();
        risk_factors.push(String::from_str("aggregate risk at or above high"));
        TradeRecommendation::Avoid { reasons, risk_factors }
    } else if matches!(risk, RiskLevel::Low) && score >= BUY_CONFIDENCE_THRESHOLD {
        TradeRecommendation::Buy {
            confidence: score,
            suggested_amount: 0,
            entry_price: 0,
            stop_loss: 0,
            take_profit: 0,
        }
    } else {
        TradeRecommendation::Hold { duration: String::from_str("24h"), reevaluation_price: 0 }
    }
}

/// Combines the collected per-source outcomes for `token` into one result
/// stamped `now`. Fails exactly when no source succeeded; otherwise the
/// score is the average over the succeeding sources, the risk level their
/// maximum, and the recommendation follows the decision table.
pub fn combine_analysis_results(
    token: TokenId,
    outcomes: &Vec<Option<AnalysisResult>>,
    now: i64,
) -> (r: Result<AnalysisResult, CoralError>)
    requires
        forall|i: int|
            0 <= i < outcomes@.len() ==> ((#[trigger] outcomes@[i]) matches Some(a) ==> a.wf()),
    ensures
        r is Ok <==> spec_succeeded(outcomes@).len() > 0,
        r matches Err(e) ==> (e matches CoralError::AnalysisFailed(m) && m@
            == "no signal source produced a usable result"@),
        r matches Ok(a) ==> {
            let succ = spec_succeeded(outcomes@);
            &&& a.token_address == token
            &&& a.analysis_timestamp == now
            &&& a.authenticity_score == spec_combined_score(succ)
            &&& a.wf()
            &&& a.risk_level == spec_max_risk(succ)
            &&& spec_recommendation_ok(
                a.recommendation,
                a.authenticity_score,
                a.risk_level,
                spec_flagged_count(succ),
            )
        },
{
    let n: usize = outcomes.len();
    let mut count: usize = 0;
    let mut sum: u128 = 0;
    let mut risk: RiskLevel = RiskLevel::Low;
    let mut flagged: usize = 0;
    let mut i: usize = 0;
    while i < n
        invariant
            n == outcomes@.len(),
            i <= n,
            forall|k: int|
                0 <= k < outcomes@.len() ==> ((#[trigger] outcomes@[k]) matches Some(a)
                    ==> a.wf()),
            count == spec_succeeded(outcomes@.take(i as int)).len(),
            sum == spec_sum_scores(spec_succeeded(outcomes@.take(i as int))),
            sum <= count * (SCORE_ONE as int),
            risk == spec_max_risk(spec_succeeded(outcomes@.take(i as int))),
            flagged == spec_flagged_count(spec_succeeded(outcomes@.take(i as int))),
            count <= i,
            flagged <= count,
        decreases n - i,
    {
        proof {
            assert(outcomes@.take(i + 1).drop_last() =~= outcomes@.take(i as int));
            assert(outcomes@.take(i + 1).last() == outcomes@[i as int]);
            if outcomes@[i as int] is Some {
                let succ = spec_succeeded(outcomes@.take(i as int));
                let a = outcomes@[i as int]->0;
                assert(succ.push(a).drop_last() =~= succ);
                assert(a.wf());
            }
        }
        if let Some(a) = &outcomes[i] {
            count = count + 1;
            sum = sum + a.authenticity_score as u128;
            risk = risk.max(a.risk_level);
            if a.risk_level.rank() >= 2 {
                flagged = flagged + 1;
            }
        }
        i += 1;
    }
    proof {
        assert(outcomes@.take(n as int) =~= outcomes@);
    }
    if count == 0 {
        return Err(
            CoralError::AnalysisFailed(
                String::from_str("no signal source produced a usable result"),
            ),
        );
    }
    proof {
        assert((sum as int) / (count as int) <= SCORE_ONE) by (nonlinear_arith)
            requires
                count > 0,
                0 <= sum as int <= count * (SCORE_ONE as int),
        ;
    }
    let average: u64 = (sum / count as u128) as u64;
    let recommendation = derive_recommendation(average, risk, flagged);
    Ok(
        AnalysisResult {
            token_address: token,
            authenticity_score: average,
            risk_level: risk,
            recommendation,
            analysis_timestamp: now,
        },
    )
}

/// Fan-in point for the signal sources: combines their outcomes and
/// records analysis telemetry.
pub struct AnalysisAggregator {
    /// The weight policy the signal sources score their metrics with.
    pub weights: AnalysisWeights,
}

impl AnalysisAggregator {
    /// An aggregator using the given weights.
    pub fn new(weights: AnalysisWeights) -> (a: AnalysisAggregator)
        ensures
            a.weights == weights,
    {
        AnalysisAggregator { weights }
    }

    /// An aggregator using the given weights, rejecting weights off the
    /// unit scale as a configuration error.
    pub fn try_new(weights: AnalysisWeights) -> (r: Result<AnalysisAggregator, CoralError>)
        ensures
            r is Ok <==> weights.wf(),
            r matches Ok(a) ==> a.weights == weights,
            r matches Err(e) ==> (e matches CoralError::ConfigError(m) && m@
                == "analysis weights exceed the unit scale"@),
    {
        if weights.confidence <= SCORE_ONE && weights.risk <= SCORE_ONE && weights.reliability
            <= SCORE_ONE {
            Ok(AnalysisAggregator { weights })
        } else {
            Err(CoralError::ConfigError(String::from_str("analysis weights exceed the unit scale")))
        }
    }

    /// Combines the collected outcomes, stamps the result with the
    /// current clock, and records the analysis on the telemetry recorder.
    /// Whatever the clock returns, everything but the timestamp is pinned
    /// by the combination contract.
    pub fn aggregate(
        &self,
        token: TokenId,
        outcomes: &Vec<Option<AnalysisResult>>,
        metrics: &mut MetricsCollector,
    ) -> (r: Result<AnalysisResult, CoralError>)
        requires
            forall|i: int|
                0 <= i < outcomes@.len() ==> ((#[trigger] outcomes@[i]) matches Some(a)
                    ==> a.wf()),
        ensures
            r is Ok <==> spec_succeeded(outcomes@).len() > 0,
            r matches Err(e) ==> (e matches CoralError::AnalysisFailed(m) && m@
                == "no signal source produced a usable result"@),
            r matches Ok(a) ==> {
                let succ = spec_succeeded(outcomes@);
                &&& a.token_address == token
                &&& a.authenticity_score == spec_combined_score(succ)
                &&& a.wf()
                &&& a.risk_level == spec_max_risk(succ)
                &&& spec_recommendation_ok(
                    a.recommendation,
                    a.authenticity_score,
                    a.risk_level,
                    spec_flagged_count(succ),
                )
            },
            final(metrics).analysis_count == if old(metrics).analysis_count < u64::MAX {
                old(metrics).analysis_count + 1
            } else {
                u64::MAX as int
            },
            exists|d: u64|
                final(metrics).analysis_times@ == old(metrics).analysis_times@.push(d),
            final(metrics).trade_count == old(metrics).trade_count,
            final(metrics).error_count == old(metrics).error_count,
            final(metrics).trades@ == old(metrics).trades@,
            final(metrics).token_performance@ == old(metrics).token_performance@,
            old(metrics).wf() ==> final(metrics).wf(),
    {
        let started = now_timestamp_millis();
        let result = combine_analysis_results(token, outcomes, now_timestamp());
        let finished = now_timestamp_millis();
        let diff: i128 = finished as i128 - started as i128;
        let elapsed: u64 = if diff <= 0 {
            0
        } else if diff > u64::MAX as i128 {
            u64::MAX
        } else {
            diff as u64
        };
        metrics.increment_analysis_count();
        metrics.record_analysis_time(elapsed);
        result
    }
}

} // verus!
