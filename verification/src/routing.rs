//! Route scoring engine: validation gating, multi-criteria scoring and
//! deterministic selection of the best candidate route.
//!
//! Discovery is the venue adapters' business; this module works on the
//! candidate routes they returned. A route must pass the validation gate
//! before it is eligible to win at all; among eligible routes the highest
//! score wins and ties break toward the highest expected output, then
//! toward the earliest candidate.

use vstd::prelude::*;
use vstd::string::StringExecFns;

use crate::types::{CoralError, DexType, PriceQuote, RouteHop, SCORE_ONE, TradeRoute};

verus! {

/// Fee at or above which the fee sub-score bottoms out at zero. A policy
/// reference scale, in base units.
pub const FEE_REFERENCE: u64 = 10_000_000;

/// Reliability penalty per hop beyond the first, on the [`SCORE_ONE`]
/// scale. A policy constant.
pub const HOP_PENALTY: u64 = 100_000;

/// Venue-level thresholds a candidate route must meet before it is
/// eligible for selection.
#[derive(Clone, Copy, PartialEq, Eq, Structural, Debug)]
pub struct RoutePolicy {
    pub max_hops: u8,
    /// Largest acceptable price impact, on the [`SCORE_ONE`] scale.
    pub max_price_impact: u64,
    /// Smallest acceptable liquidity of any pool on the route.
    pub minimum_liquidity: u64,
}

/// The validation gate: hop count, price impact and per-pool liquidity
/// all within the policy thresholds.
pub open spec fn spec_route_valid(r: TradeRoute, p: RoutePolicy) -> bool {
    &&& r.hops@.len() <= p.max_hops
    &&& r.price_impact <= p.max_price_impact
    &&& forall|i: int|
        0 <= i < r.hops@.len() ==> (#[trigger] r.hops@[i]).pool_liquidity >= p.minimum_liquidity
}

/// Trust weight of a venue, on the [`SCORE_ONE`] scale. Policy constants;
/// an unknown venue gets the lowest weight.
pub open spec fn spec_dex_trust(d: DexType) -> u64 {
    match d {
        DexType::Jupiter => 950_000u64,
        DexType::Orca => 900_000u64,
        DexType::Raydium => 880_000u64,
        DexType::Serum => 850_000u64,
        DexType::Custom(_) => 700_000u64,
    }
}

/// The lowest trust weight along the hops; the full unit for no hops.
pub open spec fn spec_min_trust(hops: Seq<RouteHop>) -> int
    decreases hops.len(),
{
    if hops.len() == 0 {
        SCORE_ONE as int
    } else {
        let rest = spec_min_trust(hops.drop_last());
        if spec_dex_trust(hops.last().dex) < rest {
            spec_dex_trust(hops.last().dex) as int
        } else {
            rest
        }
    }
}

/// Sub-score strictly decreasing in price impact: the remaining fraction
/// of the unit scale.
pub open spec fn spec_price_impact_score(price_impact: u64) -> int {
    if price_impact >= SCORE_ONE {
        0
    } else {
        SCORE_ONE - price_impact
    }
}

/// Sub-score decreasing in total fee, normalized against
/// [`FEE_REFERENCE`] and clamped to the unit scale.
pub open spec fn spec_fee_score(total_fee: u64) -> int {
    if total_fee >= FEE_REFERENCE {
        0
    } else {
        (FEE_REFERENCE - total_fee) * (SCORE_ONE as int) / (FEE_REFERENCE as int)
    }
}

/// Sub-score decreasing in hop count and increasing in venue trust: the
/// lowest hop trust, less a penalty per hop beyond the first.
pub open spec fn spec_reliability_score(hops: Seq<RouteHop>) -> int {
    let base = spec_min_trust(hops);
    let penalty = if hops.len() == 0 {
        0int
    } else {
        HOP_PENALTY * (hops.len() - 1)
    };
    if base >= penalty {
        base - penalty
    } else {
        0
    }
}

/// Weighted multi-criteria route score on the [`SCORE_ONE`] scale:
/// 0.4 price impact, 0.3 fees, 0.3 reliability.
pub open spec fn spec_route_score(r: TradeRoute) -> int {
    (4 * spec_price_impact_score(r.price_impact) + 3 * spec_fee_score(r.total_fee) + 3
        * spec_reliability_score(r.hops@)) / 10
}

/// Strict selection order: higher score wins, ties break toward higher
/// expected output.
pub open spec fn spec_better(a: TradeRoute, b: TradeRoute) -> bool {
    ||| spec_route_score(a) > spec_route_score(b)
    ||| (spec_route_score(a) == spec_route_score(b) && a.expected_output > b.expected_output)
}

/// `r`, at candidate position `i`, is the selection from `routes` under
/// policy `p`: it meets the validation thresholds, no eligible candidate
/// beats it, and it beats every earlier eligible candidate (so the
/// earliest maximum wins).
pub open spec fn spec_selects(
    routes: Seq<TradeRoute>,
    p: RoutePolicy,
    r: TradeRoute,
    i: int,
) -> bool {
    &&& 0 <= i < routes.len()
    &&& routes[i] == r
    &&& spec_route_valid(r, p)
    &&& forall|j: int|
        0 <= j < routes.len() && spec_route_valid(#[trigger] routes[j], p) ==> !spec_better(
            routes[j],
            r,
        )
    &&& forall|j: int|
        0 <= j < i && spec_route_valid(#[trigger] routes[j], p) ==> spec_better(r, routes[j])
}

/// Some candidate passes the validation gate.
pub open spec fn spec_any_valid(routes: Seq<TradeRoute>, p: RoutePolicy) -> bool {
    exists|j: int| 0 <= j < routes.len() && spec_route_valid(#[trigger] routes[j], p)
}

/// `r` is the selection from `routes` at some candidate position.
pub open spec fn spec_selected(routes: Seq<TradeRoute>, p: RoutePolicy, r: TradeRoute) -> bool {
    exists|i: int| spec_selects(routes, p, r, i)
}

/// The lowest hop trust stays on the unit scale.
pub proof fn lemma_min_trust_bounds(hops: Seq<RouteHop>)
    ensures
        0 <= spec_min_trust(hops) <= SCORE_ONE,
    decreases hops.len(),
{
    if hops.len() > 0 {
        lemma_min_trust_bounds(hops.drop_last());
    }
}

/// Every sub-score and the combined score stay on the unit scale.
pub proof fn lemma_route_score_unit_range(r: TradeRoute)
    ensures
        0 <= spec_price_impact_score(r.price_impact) <= SCORE_ONE,
        0 <= spec_fee_score(r.total_fee) <= SCORE_ONE,
        0 <= spec_reliability_score(r.hops@) <= SCORE_ONE,
        0 <= spec_route_score(r) <= SCORE_ONE,
{
    if r.total_fee < FEE_REFERENCE {
        assert((FEE_REFERENCE - r.total_fee) * (SCORE_ONE as int) / (FEE_REFERENCE as int)
            <= SCORE_ONE) by (nonlinear_arith)
            requires
                0 < FEE_REFERENCE - r.total_fee <= FEE_REFERENCE,
                SCORE_ONE == 1_000_000,
                FEE_REFERENCE == 10_000_000,
        ;
        assert(0 <= (FEE_REFERENCE - r.total_fee) * (SCORE_ONE as int) / (FEE_REFERENCE as int))
            by (nonlinear_arith)
            requires
                0 < FEE_REFERENCE - r.total_fee,
                SCORE_ONE == 1_000_000,
                FEE_REFERENCE == 10_000_000,
        ;
    }
    lemma_min_trust_bounds(r.hops@);
    assert(0 <= spec_route_score(r) <= SCORE_ONE) by (nonlinear_arith)
        requires
            0 <= spec_price_impact_score(r.price_impact) <= SCORE_ONE,
            0 <= spec_fee_score(r.total_fee) <= SCORE_ONE,
            0 <= spec_reliability_score(r.hops@) <= SCORE_ONE,
            SCORE_ONE == 1_000_000,
            spec_route_score(r) == (4 * spec_price_impact_score(r.price_impact) + 3
                * spec_fee_score(r.total_fee) + 3 * spec_reliability_score(r.hops@)) / 10,
    ;
}

/// The price-impact sub-score is strictly decreasing on the unit scale.
pub proof fn lemma_price_impact_score_strictly_decreasing(p1: u64, p2: u64)
    requires
        p1 < p2 <= SCORE_ONE,
    ensures
        spec_price_impact_score(p2) < spec_price_impact_score(p1),
{
}

/// The fee sub-score never grows with the fee.
pub proof fn lemma_fee_score_decreasing(f1: u64, f2: u64)
    requires
        f1 <= f2,
    ensures
        spec_fee_score(f2) <= spec_fee_score(f1),
{
    if f2 < FEE_REFERENCE {
        assert((FEE_REFERENCE - f2) * (SCORE_ONE as int) <= (FEE_REFERENCE - f1) * (
        SCORE_ONE as int)) by (nonlinear_arith)
            requires
                f1 <= f2 < FEE_REFERENCE,
                SCORE_ONE == 1_000_000,
        ;
        assert((FEE_REFERENCE - f2) * (SCORE_ONE as int) / (FEE_REFERENCE as int) <= (
        FEE_REFERENCE - f1) * (SCORE_ONE as int) / (FEE_REFERENCE as int)) by (nonlinear_arith)
            requires
                0 <= (FEE_REFERENCE - f2) * (SCORE_ONE as int) <= (FEE_REFERENCE - f1) * (
                SCORE_ONE as int),
                FEE_REFERENCE == 10_000_000,
        ;
    } else {
        if f1 < FEE_REFERENCE {
            assert(0 <= (FEE_REFERENCE - f1) * (SCORE_ONE as int) / (FEE_REFERENCE as int))
                by (nonlinear_arith)
                requires
                    f1 < FEE_REFERENCE,
                    SCORE_ONE == 1_000_000,
                    FEE_REFERENCE == 10_000_000,
            ;
        }
    }
}

/// The reliability sub-score never grows when a route gains a hop.
pub proof fn lemma_reliability_score_decreasing_in_hops(hops: Seq<RouteHop>, h: RouteHop)
    ensures
        spec_reliability_score(hops.push(h)) <= spec_reliability_score(hops),
{
    assert(hops.push(h).drop_last() =~= hops);
    lemma_min_trust_bounds(hops);
    lemma_min_trust_bounds(hops.push(h));
}

/// Scoring is monotonic in price impact: with fees and hops fixed, a
/// higher price impact never yields a higher score.
pub proof fn lemma_score_monotonic_in_price_impact(a: TradeRoute, b: TradeRoute)
    requires
        a.total_fee == b.total_fee,
        a.hops@ == b.hops@,
        a.price_impact <= b.price_impact,
    ensures
        spec_route_score(b) <= spec_route_score(a),
{
    assert(spec_price_impact_score(b.price_impact) <= spec_price_impact_score(a.price_impact));
    let na: int = 4 * spec_price_impact_score(a.price_impact) + 3 * spec_fee_score(a.total_fee) + 3
        * spec_reliability_score(a.hops@);
    let nb: int = 4 * spec_price_impact_score(b.price_impact) + 3 * spec_fee_score(b.total_fee) + 3
        * spec_reliability_score(b.hops@);
    assert(nb <= na);
    assert(nb / 10 <= na / 10) by (nonlinear_arith)
        requires
            nb <= na,
    ;
}

/// A route that fails the validation gate is never the selected route,
/// whatever its raw expected output; the selected route always passes.
pub proof fn lemma_gate_excludes_invalid(
    routes: Seq<TradeRoute>,
    p: RoutePolicy,
    r: TradeRoute,
    i: int,
    x: TradeRoute,
)
    requires
        spec_selects(routes, p, r, i),
        !spec_route_valid(x, p),
    ensures
        spec_route_valid(r, p),
        r != x,
{
}

/// For a fixed candidate set and policy the selection is deterministic:
/// any two selections agree on the route and its position.
pub proof fn lemma_selection_deterministic(
    routes: Seq<TradeRoute>,
    p: RoutePolicy,
    r1: TradeRoute,
    i1: int,
    r2: TradeRoute,
    i2: int,
)
    requires
        spec_selects(routes, p, r1, i1),
        spec_selects(routes, p, r2, i2),
    ensures
        i1 == i2,
        r1 == r2,
{
    if i1 < i2 {
        assert(spec_better(r2, routes[i1]));
        assert(!spec_better(routes[i1], r1));
    }
    if i2 < i1 {
        assert(spec_better(r1, routes[i2]));
        assert(!spec_better(routes[i2], r2));
    }
}

/// Checks candidate routes against the venue-level policy thresholds.
pub struct RouteValidation {
    pub policy: RoutePolicy,
}

impl RouteValidation {
    /// A gate for the given policy.
    pub fn new(policy: RoutePolicy) -> (v: RouteValidation)
        ensures
            v.policy == policy,
    {
        RouteValidation { policy }
    }

    /// Whether every pool on the route has at least the required
    /// liquidity.
    pub fn validate_liquidity(&self, route: &TradeRoute) -> (ok: bool)
        ensures
            ok == forall|i: int|
                0 <= i < route.hops@.len() ==> (#[trigger] route.hops@[i]).pool_liquidity
                    >= self.policy.minimum_liquidity,
    {
        let n: usize = route.hops.len();
        let mut i: usize = 0;
        while i < n
            invariant
                n == route.hops@.len(),
                i <= n,
                forall|j: int|
                    0 <= j < i ==> (#[trigger] route.hops@[j]).pool_liquidity
                        >= self.policy.minimum_liquidity,
            decreases n - i,
        {
            if route.hops[i].pool_liquidity < self.policy.minimum_liquidity {
                return false;
            }
            i += 1;
        }
        true
    }

    /// The validation gate: hop count, price impact and liquidity.
    pub fn validate(&self, route: &TradeRoute) -> (ok: bool)
        ensures
            ok == spec_route_valid(*route, self.policy),
    {
        if route.hops.len() > self.policy.max_hops as usize {
            return false;
        }
        if route.price_impact > self.policy.max_price_impact {
            return false;
        }
        self.validate_liquidity(route)
    }
}

/// Trust weight of a venue, on the [`SCORE_ONE`] scale.
pub fn dex_trust(d: &DexType) -> (t: u64)
    ensures
        t == spec_dex_trust(*d),
{
    match d {
        DexType::Jupiter => 950_000,
        DexType::Orca => 900_000,
        DexType::Raydium => 880_000,
        DexType::Serum => 850_000,
        DexType::Custom(_) => 700_000,
    }
}

/// Sub-score for price impact.
pub fn price_impact_score(price_impact: u64) -> (s: u64)
    ensures
        s == spec_price_impact_score(price_impact),
        s <= SCORE_ONE,
{
    if price_impact >= SCORE_ONE {
        0
    } else {
        SCORE_ONE - price_impact
    }
}

/// Sub-score for total fees.
pub fn fee_score(total_fee: u64) -> (s: u64)
    ensures
        s == spec_fee_score(total_fee),
        s <= SCORE_ONE,
{
    if total_fee >= FEE_REFERENCE {
        0
    } else {
        proof {
            assert((FEE_REFERENCE - total_fee) * (SCORE_ONE as int) <= 10_000_000_000_000int)
                by (nonlinear_arith)
                requires
                    0 < FEE_REFERENCE - total_fee <= 10_000_000,
                    SCORE_ONE == 1_000_000,
                    FEE_REFERENCE == 10_000_000,
            ;
            assert((FEE_REFERENCE - total_fee) * (SCORE_ONE as int) / (FEE_REFERENCE as int)
                <= SCORE_ONE) by (nonlinear_arith)
                requires
                    0 < FEE_REFERENCE - total_fee <= FEE_REFERENCE,
                    SCORE_ONE == 1_000_000,
                    FEE_REFERENCE == 10_000_000,
            ;
        }
        (FEE_REFERENCE - total_fee) * SCORE_ONE / FEE_REFERENCE
    }
}

/// Sub-score for route reliability.
pub fn reliability_score(hops: &Vec<RouteHop>) -> (s: u64)
    ensures
        s == spec_reliability_score(hops@),
        s <= SCORE_ONE,
{
    proof {
        lemma_min_trust_bounds(hops@);
    }
    let n: usize = hops.len();
    let mut base: u64 = SCORE_ONE;
    let mut i: usize = 0;
    while i < n
        invariant
            n == hops@.len(),
            i <= n,
            base == spec_min_trust(hops@.take(i as int)),
            base <= SCORE_ONE,
        decreases n - i,
    {
        proof {
            assert(hops@.take(i + 1).drop_last() =~= hops@.take(i as int));
            assert(hops@.take(i + 1).last() == hops@[i as int]);
        }
        let t = dex_trust(&hops[i].dex);
        if t < base {
            base = t;
        }
        i += 1;
    }
    proof {
        assert(hops@.take(n as int) =~= hops@);
    }
    if n == 0 {
        return base;
    }
    let extra: usize = n - 1;
    if extra >= 10 {
        proof {
            assert(HOP_PENALTY * (hops@.len() - 1) >= 1_000_000) by (nonlinear_arith)
                requires
                    HOP_PENALTY == 100_000,
                    hops@.len() - 1 >= 10,
            ;
        }
        return 0;
    }
    let penalty: u64 = HOP_PENALTY * (extra as u64);
    proof {
        assert(HOP_PENALTY * (extra as u64) == HOP_PENALTY * (hops@.len() - 1));
    }
    if base >= penalty {
        base - penalty
    } else {
        0
    }
}

/// Weighted multi-criteria score of a route, on the [`SCORE_ONE`] scale.
pub fn calculate_route_score(route: &TradeRoute) -> (s: u64)
    ensures
        s == spec_route_score(*route),
        s <= SCORE_ONE,
{
    let pi = price_impact_score(route.price_impact);
    let fees = fee_score(route.total_fee);
    let rel = reliability_score(&route.hops);
    let total: u64 = 4 * pi + 3 * fees + 3 * rel;
    proof {
        assert(total / 10 <= SCORE_ONE) by (nonlinear_arith)
            requires
                total <= 10_000_000,
                SCORE_ONE == 1_000_000,
        ;
    }
    total / 10
}

/// Selects the best valid candidate: only candidates within the
/// validation thresholds are eligible; among those the highest score
/// wins, ties break toward the highest expected output and then toward
/// the earliest candidate. Fails exactly when no candidate is eligible.
pub fn select_best_route(routes: Vec<TradeRoute>, policy: &RoutePolicy) -> (r: Result<
    TradeRoute,
    CoralError,
>)
    ensures
        r is Ok <==> spec_any_valid(routes@, *policy),
        r matches Ok(rt) ==> spec_selected(routes@, *policy, rt),
        r matches Err(e) ==> (e matches CoralError::TradingFailed(m) && m@
            == "no valid trading route found"@),
{
    let gate = RouteValidation { policy: *policy };
    let n: usize = routes.len();
    let mut found: bool = false;
    let mut best_idx: usize = 0;
    let mut best_score: u64 = 0;
    let mut best_output: u64 = 0;
    let mut i: usize = 0;
    while i < n
        invariant
            n == routes@.len(),
            gate.policy == *policy,
            i <= n,
            !found ==> forall|j: int|
                0 <= j < i ==> !spec_route_valid(#[trigger] routes@[j], *policy),
            found ==> {
                &&& best_idx < i
                &&& spec_route_valid(routes@[best_idx as int], *policy)
                &&& best_score == spec_route_score(routes@[best_idx as int])
                &&& best_output == routes@[best_idx as int].expected_output
                &&& forall|j: int|
                    0 <= j < i && spec_route_valid(#[trigger] routes@[j], *policy)
                        ==> !spec_better(routes@[j], routes@[best_idx as int])
                &&& forall|j: int|
                    0 <= j < best_idx && spec_route_valid(#[trigger] routes@[j], *policy)
                        ==> spec_better(routes@[best_idx as int], routes@[j])
            },
        decreases n - i,
    {
        if gate.validate(&routes[i]) {
            let sc = calculate_route_score(&routes[i]);
            let out = routes[i].expected_output;
            if !found {
                found = true;
                best_idx = i;
                best_score = sc;
                best_output = out;
            } else if sc > best_score || (sc == best_score && out > best_output) {
                best_idx = i;
                best_score = sc;
                best_output = out;
            }
        }
        i += 1;
    }
    if found {
        let mut candidates = routes;
        let winner = candidates.remove(best_idx);
        proof {
            assert(spec_selects(routes@, *policy, winner, best_idx as int));
            assert(spec_selected(routes@, *policy, winner));
            assert(spec_any_valid(routes@, *policy));
        }
        Ok(winner)
    } else {
        Err(CoralError::TradingFailed(String::from_str("no valid trading route found")))
    }
}

/// A priced offer derived from a route for a given input amount.
pub fn quote_from_route(input_amount: u64, route: TradeRoute) -> (q: PriceQuote)
    ensures
        q.input_amount == input_amount,
        q.output_amount == route.expected_output,
        q.price_impact == route.price_impact,
        q.fee_amount == route.total_fee,
        q.route == route,
{
    let output_amount = route.expected_output;
    let price_impact = route.price_impact;
    let fee_amount = route.total_fee;
    PriceQuote { input_amount, output_amount, price_impact, fee_amount, route }
}

} // verus!
