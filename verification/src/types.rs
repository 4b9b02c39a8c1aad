//! Core data model: token identity, risk levels, orders, routes and results.
//!
//! Scores, ratios and price impacts are fixed-point values on the
//! [`SCORE_ONE`] scale: `SCORE_ONE` stands for 1.0, so a price impact of
//! 10_000 is 1% and a score of 900_000 is 0.9.

use vstd::prelude::*;

verus! {

/// Fixed-point scale for scores, ratios and price impacts: 1_000_000
/// stands for 1.0.
pub const SCORE_ONE: u64 = 1_000_000;

/// Opaque fixed-width identifier for a tradable asset or account
/// (a 32-byte on-chain address).
#[derive(Clone, Copy, Debug)]
#[verifier::ext_equal]
pub struct TokenId {
    pub bytes: [u8; 32],
}

impl TokenId {
    pub fn new(bytes: [u8; 32]) -> (t: TokenId)
        ensures
            t.bytes == bytes,
    {
        TokenId { bytes }
    }
}

impl PartialEq for TokenId {
    fn eq(&self, other: &TokenId) -> (r: bool) {
        let mut i: usize = 0;
        while i < 32
            invariant
                i <= 32,
                forall|j: int| 0 <= j < i ==> self.bytes[j] == other.bytes[j],
            decreases 32 - i,
        {
            if self.bytes[i] != other.bytes[i] {
                return false;
            }
            i += 1;
        }
        proof {
            broadcast use vstd::array::group_array_axioms;

            assert(self.bytes =~= other.bytes);
        }
        true
    }
}

impl vstd::std_specs::cmp::PartialEqSpecImpl for TokenId {
    open spec fn obeys_eq_spec() -> bool {
        true
    }

    open spec fn eq_spec(&self, other: &TokenId) -> bool {
        self.bytes == other.bytes
    }
}

/// Risk classification of a token, ordered `Low < Medium < High < Extreme`.
#[derive(Clone, Copy, PartialEq, Eq, Structural, Debug)]
pub enum RiskLevel {
    Low,
    Medium,
    High,
    Extreme,
}

/// Position of a risk level in the severity order.
pub open spec fn risk_rank(r: RiskLevel) -> int {
    match r {
        RiskLevel::Low => 0,
        RiskLevel::Medium => 1,
        RiskLevel::High => 2,
        RiskLevel::Extreme => 3,
    }
}

/// The more severe of two risk levels.
pub open spec fn spec_risk_max(a: RiskLevel, b: RiskLevel) -> RiskLevel {
    if risk_rank(a) >= risk_rank(b) {
        a
    } else {
        b
    }
}

impl RiskLevel {
    /// Numeric rank of this level in the severity order.
    pub fn rank(&self) -> (r: u8)
        ensures
            r as int == risk_rank(*self),
    {
        match self {
            RiskLevel::Low => 0,
            RiskLevel::Medium => 1,
            RiskLevel::High => 2,
            RiskLevel::Extreme => 3,
        }
    }

    /// The more severe of `self` and `other`.
    pub fn max(self, other: RiskLevel) -> (r: RiskLevel)
        ensures
            r == spec_risk_max(self, other),
    {
        if self.rank() >= other.rank() {
            self
        } else {
            other
        }
    }
}

/// What the engine advises for a token. Exactly one variant per analysis;
/// the variant and its payload are derived by the decision table, never set
/// directly by callers.
#[derive(Clone, Debug)]
pub enum TradeRecommendation {
    Buy {
        /// Combined confidence on the [`SCORE_ONE`] scale.
        confidence: u64,
        suggested_amount: u64,
        entry_price: u64,
        stop_loss: u64,
        take_profit: u64,
    },
    Sell {
        confidence: u64,
        /// Fraction of the position to sell, on the [`SCORE_ONE`] scale.
        percentage: u64,
        reason: String,
    },
    Hold {
        duration: String,
        reevaluation_price: u64,
    },
    Avoid {
        reasons: Vec<String>,
        risk_factors: Vec<String>,
    },
}

/// Combined outcome of one analysis pass over a token.
#[derive(Clone, Debug)]
pub struct AnalysisResult {
    pub token_address: TokenId,
    /// Authenticity score on the [`SCORE_ONE`] scale, in `[0, SCORE_ONE]`.
    pub authenticity_score: u64,
    pub risk_level: RiskLevel,
    pub recommendation: TradeRecommendation,
    /// Seconds since the Unix epoch.
    pub analysis_timestamp: i64,
}

impl AnalysisResult {
    /// The score stays on the unit scale.
    pub open spec fn wf(&self) -> bool {
        self.authenticity_score <= SCORE_ONE
    }
}

/// Error taxonomy of the engine.
#[derive(Clone, Debug)]
pub enum CoralError {
    /// No signal source produced a usable result.
    AnalysisFailed(String),
    /// No valid route, a validation constraint failed, or the chosen
    /// venue's execution failed.
    TradingFailed(String),
    /// Transport-level failure from a collaborator.
    NetworkError(String),
    /// Invalid weights or thresholds supplied at construction.
    ConfigError(String),
    /// Credential failure in a collaborator, surfaced unchanged.
    AuthenticationError(String),
}

/// Proof of a completed execution; produced exactly once per success.
#[derive(Clone, Debug)]
pub struct TradeResult {
    pub transaction_signature: String,
    /// Executed price in quote units per input unit, fixed-point on the
    /// [`SCORE_ONE`] scale.
    pub executed_price: u64,
    pub amount: u64,
    pub fee: u64,
    /// Seconds since the Unix epoch.
    pub timestamp: i64,
}

/// Trading venues a route hop can go through.
#[derive(Clone, PartialEq, Eq, Debug)]
pub enum DexType {
    Jupiter,
    Orca,
    Raydium,
    Serum,
    Custom(String),
}

/// How the caller wants routes chosen. A custom strategy is referenced by
/// its registered identifier rather than by a strategy object.
#[derive(Clone, Debug)]
pub enum RoutePreference {
    BestPrice,
    MinimumHops,
    PreferredDex(DexType),
    Custom(u64),
}

/// One pool-to-pool step of a trade route. `pool_liquidity` is the pool's
/// reported liquidity at discovery time, supplied by the venue adapter.
#[derive(Clone, Debug)]
pub struct RouteHop {
    pub dex: DexType,
    pub input_token: TokenId,
    pub output_token: TokenId,
    pub pool_address: TokenId,
    pub fee_tier: u32,
    pub pool_liquidity: u64,
}

/// A candidate path through one or more venues; never mutated, only
/// compared or discarded.
#[derive(Clone, Debug)]
pub struct TradeRoute {
    pub hops: Vec<RouteHop>,
    pub total_fee: u64,
    pub expected_output: u64,
    /// Price impact on the [`SCORE_ONE`] scale, in `[0, SCORE_ONE]`.
    pub price_impact: u64,
}

impl TradeRoute {
    /// The price impact is a fraction of the unit scale.
    pub open spec fn wf(&self) -> bool {
        self.price_impact <= SCORE_ONE
    }
}

/// A priced, not-yet-executed offer derived from a route.
#[derive(Clone, Debug)]
pub struct PriceQuote {
    pub input_amount: u64,
    pub output_amount: u64,
    /// Price impact on the [`SCORE_ONE`] scale.
    pub price_impact: u64,
    pub fee_amount: u64,
    pub route: TradeRoute,
}

/// An order to trade `amount` of `from_token` into `to_token`. Immutable
/// once constructed; one order maps to at most one execution attempt.
#[derive(Clone, Debug)]
pub struct TradeOrder {
    pub from_token: TokenId,
    pub to_token: TokenId,
    pub amount: u64,
    /// Caller's maximum acceptable price impact, on the [`SCORE_ONE`] scale.
    pub slippage_tolerance: u64,
    pub minimum_received: Option<u64>,
    pub route_preference: RoutePreference,
}

} // verus!
