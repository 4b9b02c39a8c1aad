//! Telemetry recorder: counters, a latency series, a trade ledger and
//! per-token rollups, with point-in-time summaries.
//!
//! The recorder owns its state exclusively and exposes only append-style
//! record operations and read snapshots. Drivers that share one recorder
//! across concurrent flows serialize access around these calls; recording
//! never fails and never blocks the primary operation.

use vstd::prelude::*;

use crate::types::{SCORE_ONE, TokenId};

verus! {

/// One recorded trade execution.
#[derive(Clone, Copy, Debug)]
pub struct TradeExecutionData {
    pub token: TokenId,
    /// Seconds since the Unix epoch.
    pub timestamp: i64,
    pub amount: u64,
    /// Executed price, fixed-point on the [`SCORE_ONE`] scale.
    pub price: u64,
    pub success: bool,
    /// Profit (positive) or loss (negative) attributed to this trade.
    pub profit_loss: i64,
    pub execution_time_ms: u64,
}

/// Rollup of all recorded trades for one token.
#[derive(Clone, Copy, PartialEq, Eq, Structural, Debug)]
pub struct TokenPerformance {
    pub total_trades: u64,
    pub successful_trades: u64,
    pub total_volume: u128,
    pub total_profit_loss: i128,
    /// Largest per-trade profit seen, or 0 when no trade profited.
    pub best_trade_profit: i64,
    /// Most negative per-trade loss seen, or 0 when no trade lost.
    pub worst_trade_loss: i64,
}

/// Point-in-time snapshot of the recorder.
#[derive(Clone, Copy, PartialEq, Eq, Structural, Debug)]
pub struct MetricsSummary {
    pub total_trades: u64,
    pub total_analyses: u64,
    pub total_errors: u64,
    /// Mean recorded analysis duration in milliseconds, rounded down;
    /// 0 when nothing was recorded.
    pub average_analysis_time: u64,
    /// Fraction of ledger entries that succeeded, fixed-point on the
    /// [`SCORE_ONE`] scale; 0 for an empty ledger.
    pub success_rate: u64,
    /// Exact sum of the per-trade profit and loss values.
    pub profit_loss: i128,
}

/// The subsequence of `s` recorded for token `t`, oldest first.
pub open spec fn spec_token_trades(s: Seq<TradeExecutionData>, t: TokenId) -> Seq<
    TradeExecutionData,
>
    decreases s.len(),
{
    if s.len() == 0 {
        Seq::empty()
    } else {
        let prefix = spec_token_trades(s.drop_last(), t);
        if s.last().token.bytes == t.bytes {
            prefix.push(s.last())
        } else {
            prefix
        }
    }
}

/// How many of the recorded trades succeeded.
pub open spec fn spec_success_count(s: Seq<TradeExecutionData>) -> nat
    decreases s.len(),
{
    if s.len() == 0 {
        0
    } else {
        spec_success_count(s.drop_last()) + if s.last().success {
            1nat
        } else {
            0nat
        }
    }
}

/// How many of the recorded trades failed.
pub open spec fn spec_failed_count(s: Seq<TradeExecutionData>) -> nat
    decreases s.len(),
{
    if s.len() == 0 {
        0
    } else {
        spec_failed_count(s.drop_last()) + if s.last().success {
            0nat
        } else {
            1nat
        }
    }
}

/// Exact sum of the per-trade profit and loss values.
pub open spec fn spec_total_pnl(s: Seq<TradeExecutionData>) -> int
    decreases s.len(),
{
    if s.len() == 0 {
        0
    } else {
        spec_total_pnl(s.drop_last()) + s.last().profit_loss
    }
}

/// Sum of the traded amounts.
pub open spec fn spec_total_volume(s: Seq<TradeExecutionData>) -> int
    decreases s.len(),
{
    if s.len() == 0 {
        0
    } else {
        spec_total_volume(s.drop_last()) + s.last().amount
    }
}

/// Largest per-trade profit, or 0 when no trade profited.
pub open spec fn spec_best_profit(s: Seq<TradeExecutionData>) -> int
    decreases s.len(),
{
    if s.len() == 0 {
        0
    } else {
        let b = spec_best_profit(s.drop_last());
        if s.last().profit_loss > b {
            s.last().profit_loss as int
        } else {
            b
        }
    }
}

/// Most negative per-trade loss, or 0 when no trade lost.
pub open spec fn spec_worst_loss(s: Seq<TradeExecutionData>) -> int
    decreases s.len(),
{
    if s.len() == 0 {
        0
    } else {
        let w = spec_worst_loss(s.drop_last());
        if s.last().profit_loss < w {
            s.last().profit_loss as int
        } else {
            w
        }
    }
}

/// Success rate over a ledger, fixed-point on the [`SCORE_ONE`] scale.
pub open spec fn spec_success_rate(s: Seq<TradeExecutionData>) -> int {
    if s.len() == 0 {
        0
    } else {
        spec_success_count(s) * SCORE_ONE / (s.len() as int)
    }
}

/// Sum of a series of durations.
pub open spec fn spec_sum_u64(s: Seq<u64>) -> int
    decreases s.len(),
{
    if s.len() == 0 {
        0
    } else {
        spec_sum_u64(s.drop_last()) + s.last()
    }
}

/// A rollup agrees with the trades recorded for its token.
pub open spec fn spec_rollup_ok(p: TokenPerformance, f: Seq<TradeExecutionData>) -> bool {
    &&& p.total_trades == f.len()
    &&& p.successful_trades == spec_success_count(f)
    &&& p.total_volume == spec_total_volume(f)
    &&& p.total_profit_loss == spec_total_pnl(f)
    &&& p.best_trade_profit == spec_best_profit(f)
    &&& p.worst_trade_loss == spec_worst_loss(f)
}

/// Some rollup entry is keyed by token `t`.
pub open spec fn spec_has_entry(entries: Seq<(TokenId, TokenPerformance)>, t: TokenId) -> bool {
    exists|i: int| 0 <= i < entries.len() && entries[i].0.bytes == t.bytes
}

/// Performance and operational metrics tracker.
#[derive(Debug)]
pub struct MetricsCollector {
    pub trade_count: u64,
    pub analysis_count: u64,
    pub error_count: u64,
    pub analysis_times: Vec<u64>,
    pub trades: Vec<TradeExecutionData>,
    pub token_performance: Vec<(TokenId, TokenPerformance)>,
}

/// All stats of a ledger stay within their machine bounds.
pub proof fn lemma_stats_bounds(s: Seq<TradeExecutionData>)
    ensures
        spec_success_count(s) <= s.len(),
        spec_failed_count(s) <= s.len(),
        spec_success_count(s) + spec_failed_count(s) == s.len(),
        0 <= spec_total_volume(s) <= s.len() * (u64::MAX as int),
        s.len() * (i64::MIN as int) <= spec_total_pnl(s) <= s.len() * (i64::MAX as int),
        i64::MIN <= spec_worst_loss(s) <= 0,
        0 <= spec_best_profit(s) <= i64::MAX,
    decreases s.len(),
{
    if s.len() > 0 {
        lemma_stats_bounds(s.drop_last());
        assert((s.len() - 1) * (u64::MAX as int) + u64::MAX == s.len() * (u64::MAX as int))
            by (nonlinear_arith);
        assert((s.len() - 1) * (i64::MAX as int) + i64::MAX == s.len() * (i64::MAX as int))
            by (nonlinear_arith);
        assert((s.len() - 1) * (i64::MIN as int) + i64::MIN == s.len() * (i64::MIN as int))
            by (nonlinear_arith);
    }
}

/// A duration series sums to at most its length times the largest value.
pub proof fn lemma_sum_u64_bounds(s: Seq<u64>)
    ensures
        0 <= spec_sum_u64(s) <= s.len() * (u64::MAX as int),
    decreases s.len(),
{
    if s.len() > 0 {
        lemma_sum_u64_bounds(s.drop_last());
        assert((s.len() - 1) * (u64::MAX as int) + u64::MAX == s.len() * (u64::MAX as int))
            by (nonlinear_arith);
    }
}

/// Appending one trade extends exactly the rollup of its own token and
/// leaves every other token's rollup input unchanged.
pub proof fn lemma_token_trades_push(
    s: Seq<TradeExecutionData>,
    d: TradeExecutionData,
    t: TokenId,
)
    ensures
        spec_token_trades(s.push(d), t) == if d.token.bytes == t.bytes {
            spec_token_trades(s, t).push(d)
        } else {
            spec_token_trades(s, t)
        },
{
    assert(s.push(d).drop_last() =~= s);
}

/// A ledger of N successful and M failed trades reports success rate
/// N·SCORE_ONE/(N+M), and its profit and loss is the exact running sum.
pub proof fn lemma_summary_law(s: Seq<TradeExecutionData>, d: TradeExecutionData)
    ensures
        spec_success_count(s) + spec_failed_count(s) == s.len(),
        s.len() > 0 ==> spec_success_rate(s) == spec_success_count(s) * SCORE_ONE / (
        s.len() as int),
        spec_total_pnl(s.push(d)) == spec_total_pnl(s) + d.profit_loss,
        spec_success_count(s.push(d)) == spec_success_count(s) + if d.success {
            1int
        } else {
            0int
        },
{
    lemma_stats_bounds(s);
    assert(s.push(d).drop_last() =~= s);
}

impl MetricsCollector {
    /// Rollup entries are uniquely keyed, each agrees with the ledger, and
    /// a token has an entry exactly when the ledger mentions it.
    pub open spec fn wf(&self) -> bool {
        &&& forall|i: int, j: int|
            0 <= i < j < self.token_performance@.len()
                ==> self.token_performance@[i].0.bytes != self.token_performance@[j].0.bytes
        &&& forall|i: int|
            0 <= i < self.token_performance@.len() ==> {
                let key = (#[trigger] self.token_performance@[i]).0;
                &&& spec_rollup_ok(
                    self.token_performance@[i].1,
                    spec_token_trades(self.trades@, key),
                )
                &&& spec_token_trades(self.trades@, key).len() > 0
            }
        &&& forall|t: TokenId|
            #[trigger] spec_token_trades(self.trades@, t).len() > 0 ==> spec_has_entry(
                self.token_performance@,
                t,
            )
    }

    /// A fresh recorder with empty counters, series and ledger.
    pub fn new() -> (c: MetricsCollector)
        ensures
            c.wf(),
            c.trade_count == 0,
            c.analysis_count == 0,
            c.error_count == 0,
            c.analysis_times@ == Seq::<u64>::empty(),
            c.trades@ == Seq::<TradeExecutionData>::empty(),
            c.token_performance@ == Seq::<(TokenId, TokenPerformance)>::empty(),
    {
        MetricsCollector {
            trade_count: 0,
            analysis_count: 0,
            error_count: 0,
            analysis_times: Vec::new(),
            trades: Vec::new(),
            token_performance: Vec::new(),
        }
    }

    /// Bumps the monotonic trade counter; saturates at the type bound.
    pub fn increment_trade_count(&mut self)
        ensures
            final(self).trade_count == if old(self).trade_count < u64::MAX {
                old(self).trade_count + 1
            } else {
                u64::MAX as int
            },
            final(self).analysis_count == old(self).analysis_count,
            final(self).error_count == old(self).error_count,
            final(self).analysis_times@ == old(self).analysis_times@,
            final(self).trades@ == old(self).trades@,
            final(self).token_performance@ == old(self).token_performance@,
            old(self).wf() ==> final(self).wf(),
    {
        if self.trade_count < u64::MAX {
            self.trade_count = self.trade_count + 1;
        }
    }

    /// Bumps the monotonic analysis counter; saturates at the type bound.
    pub fn increment_analysis_count(&mut self)
        ensures
            final(self).analysis_count == if old(self).analysis_count < u64::MAX {
                old(self).analysis_count + 1
            } else {
                u64::MAX as int
            },
            final(self).trade_count == old(self).trade_count,
            final(self).error_count == old(self).error_count,
            final(self).analysis_times@ == old(self).analysis_times@,
            final(self).trades@ == old(self).trades@,
            final(self).token_performance@ == old(self).token_performance@,
            old(self).wf() ==> final(self).wf(),
    {
        if self.analysis_count < u64::MAX {
            self.analysis_count = self.analysis_count + 1;
        }
    }

    /// Bumps the monotonic error counter; saturates at the type bound.
    pub fn record_error(&mut self)
        ensures
            final(self).error_count == if old(self).error_count < u64::MAX {
                old(self).error_count + 1
            } else {
                u64::MAX as int
            },
            final(self).trade_count == old(self).trade_count,
            final(self).analysis_count == old(self).analysis_count,
            final(self).analysis_times@ == old(self).analysis_times@,
            final(self).trades@ == old(self).trades@,
            final(self).token_performance@ == old(self).token_performance@,
            old(self).wf() ==> final(self).wf(),
    {
        if self.error_count < u64::MAX {
            self.error_count = self.error_count + 1;
        }
    }

    /// Appends one duration to the analysis latency series.
    pub fn record_analysis_time(&mut self, duration_ms: u64)
        ensures
            final(self).analysis_times@ == old(self).analysis_times@.push(duration_ms),
            final(self).trade_count == old(self).trade_count,
            final(self).analysis_count == old(self).analysis_count,
            final(self).error_count == old(self).error_count,
            final(self).trades@ == old(self).trades@,
            final(self).token_performance@ == old(self).token_performance@,
            old(self).wf() ==> final(self).wf(),
    {
        self.analysis_times.push(duration_ms);
    }

    /// Appends one trade to the ledger and folds it into its token's
    /// rollup, creating the rollup on the token's first trade.
    pub fn record_trade_execution(&mut self, data: TradeExecutionData)
        requires
            old(self).wf(),
        ensures
            final(self).wf(),
            final(self).trades@ == old(self).trades@.push(data),
            final(self).trade_count == old(self).trade_count,
            final(self).analysis_count == old(self).analysis_count,
            final(self).error_count == old(self).error_count,
            final(self).analysis_times@ == old(self).analysis_times@,
    {
        let ghost pre = self.trades@;
        self.trades.push(data);
        // The ledger length fits a usize, which bounds every count the
        // rollup update below has to keep within its type.
        let ledger_len: usize = self.trades.len();
        proof {
            assert(pre.len() + 1 == ledger_len);
        }
        let mut i: usize = 0;
        let n: usize = self.token_performance.len();
        let mut found: bool = false;
        let mut idx: usize = 0;
        while i < n
            invariant
                n == self.token_performance@.len(),
                i <= n,
                !found ==> forall|j: int|
                    0 <= j < i
                        ==> (#[trigger] self.token_performance@[j]).0.bytes != data.token.bytes,
                found ==> idx < i && self.token_performance@[idx as int].0.bytes
                    == data.token.bytes,
            decreases n - i,
        {
            if !found && self.token_performance[i].0 == data.token {
                found = true;
                idx = i;
            }
            i += 1;
        }
        proof {
            lemma_token_trades_push(pre, data, data.token);
            lemma_stats_bounds(spec_token_trades(pre, data.token));
            lemma_token_count_le_len(pre, data.token);
            assert(spec_token_trades(pre, data.token).len() * (u64::MAX as int) <= pre.len() * (
            u64::MAX as int)) by (nonlinear_arith)
                requires
                    0 <= spec_token_trades(pre, data.token).len() <= pre.len(),
            ;
            assert(spec_token_trades(pre, data.token).len() * (i64::MAX as int) <= pre.len() * (
            i64::MAX as int)) by (nonlinear_arith)
                requires
                    0 <= spec_token_trades(pre, data.token).len() <= pre.len(),
            ;
            assert(pre.len() * (i64::MIN as int) <= spec_token_trades(pre, data.token).len() * (
            i64::MIN as int)) by (nonlinear_arith)
                requires
                    0 <= spec_token_trades(pre, data.token).len() <= pre.len(),
            ;
        }
        if found {
            let entry = self.token_performance[idx];
            let perf = entry.1;
            proof {
                assert(entry.0 =~= data.token);
                let f = spec_token_trades(pre, data.token);
                assert(f.push(data).drop_last() =~= f);
            }
            let updated = TokenPerformance {
                total_trades: perf.total_trades + 1,
                successful_trades: perf.successful_trades + if data.success {
                    1
                } else {
                    0
                },
                total_volume: perf.total_volume + data.amount as u128,
                total_profit_loss: perf.total_profit_loss + data.profit_loss as i128,
                best_trade_profit: if data.profit_loss > perf.best_trade_profit {
                    data.profit_loss
                } else {
                    perf.best_trade_profit
                },
                worst_trade_loss: if data.profit_loss < perf.worst_trade_loss {
                    data.profit_loss
                } else {
                    perf.worst_trade_loss
                },
            };
            self.token_performance.set(idx, (entry.0, updated));
            proof {
                let oldentries = old(self).token_performance@;
                assert forall|t: TokenId|
                    spec_has_entry(oldentries, t) implies spec_has_entry(
                    self.token_performance@,
                    t,
                ) by {
                    let w = choose|k: int|
                        0 <= k < oldentries.len() && oldentries[k].0.bytes == t.bytes;
                    assert(self.token_performance@[w].0 == oldentries[w].0);
                }
                self.lemma_wf_after_record(pre, data, idx as int);
            }
        } else {
            proof {
                if spec_token_trades(pre, data.token).len() > 0 {
                    let w = choose|k: int|
                        0 <= k < old(self).token_performance@.len()
                            && old(self).token_performance@[k].0.bytes == data.token.bytes;
                    assert(false);
                }
                let f = spec_token_trades(pre, data.token);
                assert(f =~= Seq::<TradeExecutionData>::empty());
                assert(f.push(data).drop_last() =~= f);
            }
            let first = TokenPerformance {
                total_trades: 1,
                successful_trades: if data.success {
                    1
                } else {
                    0
                },
                total_volume: data.amount as u128,
                total_profit_loss: data.profit_loss as i128,
                best_trade_profit: if data.profit_loss > 0 {
                    data.profit_loss
                } else {
                    0
                },
                worst_trade_loss: if data.profit_loss < 0 {
                    data.profit_loss
                } else {
                    0
                },
            };
            self.token_performance.push((data.token, first));
            proof {
                let oldentries = old(self).token_performance@;
                assert forall|t: TokenId|
                    spec_has_entry(oldentries, t) implies spec_has_entry(
                    self.token_performance@,
                    t,
                ) by {
                    let w = choose|k: int|
                        0 <= k < oldentries.len() && oldentries[k].0.bytes == t.bytes;
                    assert(self.token_performance@[w].0 == oldentries[w].0);
                }
                let fresh = self.token_performance@.len() - 1;
                self.lemma_wf_after_record(pre, data, fresh);
            }
        }
    }

    /// After pushing `data` onto `pre` and refreshing (or creating) the
    /// entry at `idx`, the recorder is well-formed again.
    proof fn lemma_wf_after_record(
        &self,
        pre: Seq<TradeExecutionData>,
        data: TradeExecutionData,
        idx: int,
    )
        requires
            self.trades@ == pre.push(data),
            0 <= idx < self.token_performance@.len(),
            self.token_performance@[idx].0.bytes == data.token.bytes,
            forall|i: int, j: int|
                0 <= i < j < self.token_performance@.len()
                    ==> self.token_performance@[i].0.bytes != self.token_performance@[j].0.bytes,
            forall|i: int|
                0 <= i < self.token_performance@.len() && i != idx ==> {
                    let key = (#[trigger] self.token_performance@[i]).0;
                    &&& spec_rollup_ok(self.token_performance@[i].1, spec_token_trades(pre, key))
                    &&& spec_token_trades(pre, key).len() > 0
                },
            spec_rollup_ok(
                self.token_performance@[idx].1,
                spec_token_trades(pre, data.token).push(data),
            ),
            forall|t: TokenId|
                #[trigger] spec_token_trades(pre, t).len() > 0 ==> spec_has_entry(
                    self.token_performance@,
                    t,
                ),
        ensures
            self.wf(),
    {
        assert forall|i: int| 0 <= i < self.token_performance@.len() implies {
            let key = (#[trigger] self.token_performance@[i]).0;
            &&& spec_rollup_ok(self.token_performance@[i].1, spec_token_trades(self.trades@, key))
            &&& spec_token_trades(self.trades@, key).len() > 0
        } by {
            let key = self.token_performance@[i].0;
            lemma_token_trades_push(pre, data, key);
            if i != idx {
                assert(key.bytes != data.token.bytes);
            } else {
                assert(key.bytes == data.token.bytes);
                assert(spec_token_trades(self.trades@, key) == spec_token_trades(
                    pre,
                    data.token,
                ).push(data));
            }
        }
        assert forall|t: TokenId| #[trigger]
            spec_token_trades(self.trades@, t).len() > 0 implies spec_has_entry(
            self.token_performance@,
            t,
        ) by {
            lemma_token_trades_push(pre, data, t);
            if t.bytes == data.token.bytes {
                assert(self.token_performance@[idx].0.bytes == t.bytes);
            }
        }
    }

    /// The rollup recorded for `token`: `Some` exactly when the ledger
    /// mentions the token, and then it agrees with the ledger.
    pub fn get_token_performance(&self, token: &TokenId) -> (r: Option<TokenPerformance>)
        requires
            self.wf(),
        ensures
            match r {
                Some(p) => spec_token_trades(self.trades@, *token).len() > 0 && spec_rollup_ok(
                    p,
                    spec_token_trades(self.trades@, *token),
                ),
                None => spec_token_trades(self.trades@, *token).len() == 0,
            },
    {
        let n: usize = self.token_performance.len();
        let mut i: usize = 0;
        while i < n
            invariant
                n == self.token_performance@.len(),
                i <= n,
                forall|j: int|
                    0 <= j < i
                        ==> (#[trigger] self.token_performance@[j]).0.bytes != token.bytes,
                self.wf(),
            decreases n - i,
        {
            if self.token_performance[i].0 == *token {
                return Some(self.token_performance[i].1);
            }
            i += 1;
        }
        proof {
            if spec_token_trades(self.trades@, *token).len() > 0 {
                assert(spec_has_entry(self.token_performance@, *token));
            }
        }
        None
    }

    /// A snapshot of the counters and the derived rates and totals.
    pub fn get_metrics_summary(&self) -> (s: MetricsSummary)
        ensures
            s.total_trades == self.trade_count,
            s.total_analyses == self.analysis_count,
            s.total_errors == self.error_count,
            s.average_analysis_time as int == if self.analysis_times@.len() == 0 {
                0int
            } else {
                spec_sum_u64(self.analysis_times@) / (self.analysis_times@.len() as int)
            },
            s.success_rate as int == spec_success_rate(self.trades@),
            s.profit_loss as int == spec_total_pnl(self.trades@),
    {
        let times_len: usize = self.analysis_times.len();
        let mut time_sum: u128 = 0;
        let mut i: usize = 0;
        while i < times_len
            invariant
                times_len == self.analysis_times@.len(),
                i <= times_len,
                time_sum == spec_sum_u64(self.analysis_times@.take(i as int)),
                time_sum <= i * (u64::MAX as int),
            decreases times_len - i,
        {
            proof {
                assert(self.analysis_times@.take(i + 1).drop_last() =~= self.analysis_times@.take(
                    i as int,
                ));
                assert((i + 1) * (u64::MAX as int) == i * (u64::MAX as int) + u64::MAX)
                    by (nonlinear_arith);
            }
            time_sum = time_sum + self.analysis_times[i] as u128;
            i += 1;
        }
        proof {
            assert(self.analysis_times@.take(times_len as int) =~= self.analysis_times@);
        }
        let average: u64 = if times_len == 0 {
            0
        } else {
            proof {
                lemma_sum_u64_bounds(self.analysis_times@);
                assert(spec_sum_u64(self.analysis_times@) / (times_len as int) <= u64::MAX as int)
                    by (nonlinear_arith)
                    requires
                        times_len > 0,
                        0 <= spec_sum_u64(self.analysis_times@) <= times_len * (u64::MAX as int),
                ;
            }
            (time_sum / times_len as u128) as u64
        };
        let trades_len: usize = self.trades.len();
        let mut successes: u64 = 0;
        let mut pnl: i128 = 0;
        let mut j: usize = 0;
        while j < trades_len
            invariant
                trades_len == self.trades@.len(),
                j <= trades_len,
                successes == spec_success_count(self.trades@.take(j as int)),
                pnl == spec_total_pnl(self.trades@.take(j as int)),
                successes <= j,
                j * (i64::MIN as int) <= pnl <= j * (i64::MAX as int),
            decreases trades_len - j,
        {
            proof {
                assert(self.trades@.take(j + 1).drop_last() =~= self.trades@.take(j as int));
                assert((j + 1) * (i64::MAX as int) == j * (i64::MAX as int) + i64::MAX)
                    by (nonlinear_arith);
                assert((j + 1) * (i64::MIN as int) == j * (i64::MIN as int) + i64::MIN)
                    by (nonlinear_arith);
            }
            if self.trades[j].success {
                successes = successes + 1;
            }
            pnl = pnl + self.trades[j].profit_loss as i128;
            j += 1;
        }
        proof {
            assert(self.trades@.take(trades_len as int) =~= self.trades@);
        }
        let rate: u64 = if trades_len == 0 {
            0
        } else {
            proof {
                assert((successes as int) * (SCORE_ONE as int) / (trades_len as int)
                    <= SCORE_ONE as int) by (nonlinear_arith)
                    requires
                        trades_len > 0,
                        0 <= successes <= trades_len,
                ;
            }
            ((successes as u128) * (SCORE_ONE as u128) / (trades_len as u128)) as u64
        };
        MetricsSummary {
            total_trades: self.trade_count,
            total_analyses: self.analysis_count,
            total_errors: self.error_count,
            average_analysis_time: average,
            success_rate: rate,
            profit_loss: pnl,
        }
    }
}

/// A token's trades are never more numerous than the whole ledger.
pub proof fn lemma_token_count_le_len(s: Seq<TradeExecutionData>, t: TokenId)
    ensures
        spec_token_trades(s, t).len() <= s.len(),
    decreases s.len(),
{
    if s.len() > 0 {
        lemma_token_count_le_len(s.drop_last(), t);
    }
}

} // verus!
