//! Execution coordination: order-level re-validation of the chosen route,
//! venue selection among candidate routes, and telemetry settlement of
//! the adapter's outcome.
//!
//! The coordinator decides; the driver performs. It plans an execution
//! from the candidate routes the venue adapters returned, the driver
//! dispatches the plan to the winning adapter, and the outcome comes back
//! here to be recorded.

use vstd::prelude::*;
use vstd::string::StringExecFns;

use crate::routing::{RoutePolicy, RouteValidation, calculate_route_score, spec_any_valid,
    spec_better, spec_route_score, spec_route_valid, spec_selects};
use crate::telemetry::{MetricsCollector, MetricsSummary, TradeExecutionData};
use crate::types::{CoralError, TradeOrder, TradeResult, TradeRoute};
use crate::util::now_timestamp;

verus! {

/// A candidate route together with the registered venue adapter that
/// produced it.
#[derive(Clone, Debug)]
pub struct RouteCandidate {
    /// Registry identifier of the venue adapter.
    pub venue: u64,
    pub route: TradeRoute,
}

/// A validated decision: dispatch `route` to the adapter registered as
/// `venue`.
#[derive(Clone, Debug)]
pub struct ExecutionPlan {
    pub venue: u64,
    pub route: TradeRoute,
}

/// The routes carried by a sequence of candidates, in order.
pub open spec fn spec_candidate_routes(cands: Seq<RouteCandidate>) -> Seq<TradeRoute> {
    cands.map_values(|c: RouteCandidate| c.route)
}

/// Order-level constraints on a chosen route: the price impact within the
/// caller's slippage tolerance, and the expected output at least the
/// caller's minimum, when one is set.
pub open spec fn spec_order_constraints_ok(order: TradeOrder, route: TradeRoute) -> bool {
    &&& route.price_impact <= order.slippage_tolerance
    &&& (order.minimum_received matches Some(m) ==> route.expected_output >= m)
}

/// A route whose price impact exceeds the order's slippage tolerance is
/// rejected whatever its expected output.
pub proof fn lemma_slippage_always_rejects(order: TradeOrder, route: TradeRoute)
    requires
        route.price_impact > order.slippage_tolerance,
    ensures
        !spec_order_constraints_ok(order, route),
{
}

/// `plan` is what planning selects from `cands`: position `i` holds the
/// winning candidate, whose route is the deterministic selection among
/// the candidates' routes.
pub open spec fn spec_plan_at(
    cands: Seq<RouteCandidate>,
    p: RoutePolicy,
    plan: ExecutionPlan,
    i: int,
) -> bool {
    &&& 0 <= i < cands.len()
    &&& cands[i].venue == plan.venue
    &&& cands[i].route == plan.route
    &&& spec_selects(spec_candidate_routes(cands), p, plan.route, i)
}

/// `plan` is what planning selects from `cands`, at some position.
pub open spec fn spec_planned(cands: Seq<RouteCandidate>, p: RoutePolicy, plan: ExecutionPlan) -> bool {
    exists|i: int| spec_plan_at(cands, p, plan, i)
}

/// Re-validates order-level constraints against the chosen route.
/// Succeeds exactly when the route meets the order's slippage tolerance
/// and minimum-received bound; a violation is a deterministic policy
/// rejection, never retried.
pub fn validate_execution(order: &TradeOrder, route: &TradeRoute) -> (r: Result<(), CoralError>)
    ensures
        r is Ok <==> spec_order_constraints_ok(*order, *route),
        r matches Err(e) ==> e matches CoralError::TradingFailed(m) && (if route.price_impact
            > order.slippage_tolerance {
            m@ == "price impact exceeds slippage tolerance"@
        } else {
            m@ == "expected output below minimum threshold"@
        }),
{
    if route.price_impact > order.slippage_tolerance {
        return Err(
            CoralError::TradingFailed(String::from_str("price impact exceeds slippage tolerance")),
        );
    }
    if let Some(min_received) = order.minimum_received {
        if route.expected_output < min_received {
            return Err(
                CoralError::TradingFailed(
                    String::from_str("expected output below minimum threshold"),
                ),
            );
        }
    }
    Ok(())
}

/// Takes a validated order and candidate routes to a concrete execution
/// decision, and records what the adapters then did.
pub struct ExecutionCoordinator {
    pub policy: RoutePolicy,
    pub metrics: MetricsCollector,
}

impl ExecutionCoordinator {
    /// The telemetry state is well-formed.
    pub open spec fn wf(&self) -> bool {
        self.metrics.wf()
    }

    /// A coordinator with the given venue policy and a fresh telemetry
    /// recorder.
    pub fn new(policy: RoutePolicy) -> (c: ExecutionCoordinator)
        ensures
            c.wf(),
            c.policy == policy,
            c.metrics.trade_count == 0,
            c.metrics.error_count == 0,
            c.metrics.trades@ == Seq::<TradeExecutionData>::empty(),
    {
        ExecutionCoordinator { policy, metrics: MetricsCollector::new() }
    }

    /// Plans one execution attempt for `order`: counts the attempt,
    /// gates and scores the candidates, picks the deterministic winner,
    /// and re-validates it against the order's own constraints. Succeeds
    /// exactly when an eligible candidate exists and the winner meets the
    /// order constraints.
    pub fn plan_trade(&mut self, order: &TradeOrder, candidates: Vec<RouteCandidate>) -> (r:
        Result<ExecutionPlan, CoralError>)
        requires
            old(self).wf(),
        ensures
            final(self).wf(),
            final(self).policy == old(self).policy,
            final(self).metrics.trade_count == if old(self).metrics.trade_count < u64::MAX {
                old(self).metrics.trade_count + 1
            } else {
                u64::MAX as int
            },
            final(self).metrics.trades@ == old(self).metrics.trades@,
            final(self).metrics.error_count == old(self).metrics.error_count,
            final(self).metrics.analysis_count == old(self).metrics.analysis_count,
            final(self).metrics.analysis_times@ == old(self).metrics.analysis_times@,
            final(self).metrics.token_performance@ == old(self).metrics.token_performance@,
            r is Ok <==> (spec_any_valid(spec_candidate_routes(candidates@), old(self).policy)
                && (forall|rt: TradeRoute, i: int|
                spec_selects(spec_candidate_routes(candidates@), old(self).policy, rt, i)
                    ==> spec_order_constraints_ok(*order, rt))),
            r matches Ok(plan) ==> spec_planned(candidates@, old(self).policy, plan)
                && spec_order_constraints_ok(*order, plan.route),
            r matches Err(e) ==> e is TradingFailed,
    {
        self.metrics.increment_trade_count();
        let gate = RouteValidation { policy: self.policy };
        let n: usize = candidates.len();
        let mut found: bool = false;
        let mut best_idx: usize = 0;
        let mut best_score: u64 = 0;
        let mut best_output: u64 = 0;
        let mut i: usize = 0;
        let ghost cr = spec_candidate_routes(candidates@);
        while i < n
            invariant
                n == candidates@.len(),
                cr == spec_candidate_routes(candidates@),
                gate.policy == self.policy,
                i <= n,
                !found ==> forall|j: int|
                    0 <= j < i ==> !spec_route_valid(#[trigger] cr[j], self.policy),
                found ==> {
                    &&& best_idx < i
                    &&& spec_route_valid(cr[best_idx as int], self.policy)
                    &&& best_score == spec_route_score(cr[best_idx as int])
                    &&& best_output == cr[best_idx as int].expected_output
                    &&& forall|j: int|
                        0 <= j < i && spec_route_valid(#[trigger] cr[j], self.policy)
                            ==> !spec_better(cr[j], cr[best_idx as int])
                    &&& forall|j: int|
                        0 <= j < best_idx && spec_route_valid(#[trigger] cr[j], self.policy)
                            ==> spec_better(cr[best_idx as int], cr[j])
                },
            decreases n - i,
        {
            proof {
                assert(cr[i as int] == candidates@[i as int].route);
            }
            if gate.validate(&candidates[i].route) {
                let sc = calculate_route_score(&candidates[i].route);
                let out = candidates[i].route.expected_output;
                if !found {
                    found = true;
                    best_idx = i;
                    best_score = sc;
                    best_output = out;
                } else if sc > best_score || (sc == best_score && out > best_output) {
                    best_idx = i;
                    best_score = sc;
                    best_output = out;
                }
            }
            i += 1;
        }
        if !found {
            return Err(
                CoralError::TradingFailed(String::from_str("no valid trading route found")),
            );
        }
        match validate_execution(order, &candidates[best_idx].route) {
            Err(e) => {
                proof {
                    assert(spec_selects(cr, self.policy, cr[best_idx as int], best_idx as int));
                    let b = cr[best_idx as int];
                    assert forall|rt: TradeRoute, k: int|
                        spec_selects(cr, self.policy, rt, k) implies rt == b by {
                        crate::routing::lemma_selection_deterministic(
                            cr,
                            self.policy,
                            rt,
                            k,
                            cr[best_idx as int],
                            best_idx as int,
                        );
                    }
                }
                Err(e)
            },
            Ok(_) => {
                let mut cands = candidates;
                let winner = cands.remove(best_idx);
                let plan = ExecutionPlan { venue: winner.venue, route: winner.route };
                proof {
                    assert(spec_selects(cr, self.policy, plan.route, best_idx as int));
                    assert(spec_plan_at(candidates@, self.policy, plan, best_idx as int));
                    assert(spec_planned(candidates@, self.policy, plan));
                    assert(spec_any_valid(cr, self.policy));
                    assert forall|rt: TradeRoute, k: int|
                        spec_selects(cr, self.policy, rt, k) implies spec_order_constraints_ok(
                        *order,
                        rt,
                    ) by {
                        crate::routing::lemma_selection_deterministic(
                            cr,
                            self.policy,
                            rt,
                            k,
                            plan.route,
                            best_idx as int,
                        );
                    }
                }
                Ok(plan)
            },
        }
    }

    /// Settles one execution attempt: either way the attempt is folded
    /// into the ledger and rollups with the order's token and amount — on
    /// success with the executed price, on failure as a `success: false`
    /// record with no fill (and the error counter bumped) — so the
    /// reported success rate is the successes over all settled attempts.
    /// The outcome itself is passed through unchanged — no retry here.
    pub fn settle_trade(
        &mut self,
        order: &TradeOrder,
        outcome: Result<TradeResult, CoralError>,
        elapsed_ms: u64,
    ) -> (r: Result<TradeResult, CoralError>)
        requires
            old(self).wf(),
        ensures
            final(self).wf(),
            final(self).policy == old(self).policy,
            r == outcome,
            outcome matches Ok(tr) ==> {
                &&& final(self).metrics.error_count == old(self).metrics.error_count
                &&& exists|ts: i64|
                    final(self).metrics.trades@ == old(self).metrics.trades@.push(
                        (TradeExecutionData {
                            token: order.from_token,
                            timestamp: ts,
                            amount: order.amount,
                            price: tr.executed_price,
                            success: true,
                            profit_loss: 0,
                            execution_time_ms: elapsed_ms,
                        }),
                    )
            },
            outcome is Err ==> {
                &&& exists|ts: i64|
                    final(self).metrics.trades@ == old(self).metrics.trades@.push(
                        (TradeExecutionData {
                            token: order.from_token,
                            timestamp: ts,
                            amount: order.amount,
                            price: 0,
                            success: false,
                            profit_loss: 0,
                            execution_time_ms: elapsed_ms,
                        }),
                    )
                &&& final(self).metrics.error_count == if old(self).metrics.error_count
                    < u64::MAX {
                    old(self).metrics.error_count + 1
                } else {
                    u64::MAX as int
                }
            },
            final(self).metrics.trade_count == old(self).metrics.trade_count,
            final(self).metrics.analysis_count == old(self).metrics.analysis_count,
            final(self).metrics.analysis_times@ == old(self).metrics.analysis_times@,
    {
        match &outcome {
            Ok(tr) => {
                let stamp = now_timestamp();
                let data = TradeExecutionData {
                    token: order.from_token,
                    timestamp: stamp,
                    amount: order.amount,
                    price: tr.executed_price,
                    success: true,
                    profit_loss: 0,
                    execution_time_ms: elapsed_ms,
                };
                self.metrics.record_trade_execution(data);
            },
            Err(_) => {
                let stamp = now_timestamp();
                let data = TradeExecutionData {
                    token: order.from_token,
                    timestamp: stamp,
                    amount: order.amount,
                    price: 0,
                    success: false,
                    profit_loss: 0,
                    execution_time_ms: elapsed_ms,
                };
                self.metrics.record_trade_execution(data);
                self.metrics.record_error();
            },
        }
        outcome
    }

    /// A point-in-time snapshot of the coordinator's telemetry.
    pub fn metrics_summary(&self) -> (s: MetricsSummary)
        ensures
            s.total_trades == self.metrics.trade_count,
            s.total_analyses == self.metrics.analysis_count,
            s.total_errors == self.metrics.error_count,
            s.average_analysis_time as int == if self.metrics.analysis_times@.len() == 0 {
                0int
            } else {
                crate::telemetry::spec_sum_u64(self.metrics.analysis_times@) / (
                self.metrics.analysis_times@.len() as int)
            },
            s.success_rate as int == crate::telemetry::spec_success_rate(self.metrics.trades@),
            s.profit_loss as int == crate::telemetry::spec_total_pnl(self.metrics.trades@),
    {
        self.metrics.get_metrics_summary()
    }
}

} // verus!
