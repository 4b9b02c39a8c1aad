use coral::execution::{ExecutionCoordinator, RouteCandidate, validate_execution};
use coral::routing::RoutePolicy;
use coral::types::{
    CoralError, RoutePreference, TokenId, TradeOrder, TradeResult, TradeRoute,
};

fn order(amount: u64, slippage_tolerance: u64, minimum_received: Option<u64>) -> TradeOrder {
    TradeOrder {
        from_token: TokenId::new([11u8; 32]),
        to_token: TokenId::new([12u8; 32]),
        amount,
        slippage_tolerance,
        minimum_received,
        route_preference: RoutePreference::BestPrice,
    }
}

fn route(output: u64, impact: u64) -> TradeRoute {
    TradeRoute {
        hops: Vec::new(),
        total_fee: 1_000,
        expected_output: output,
        price_impact: impact,
    }
}

fn policy() -> RoutePolicy {
    RoutePolicy {
        max_hops: 3,
        max_price_impact: 500_000,
        minimum_liquidity: 0,
    }
}

fn fill(signature: &str, amount: u64) -> TradeResult {
    TradeResult {
        transaction_signature: signature.to_string(),
        executed_price: 1_000_000,
        amount,
        fee: 1_000,
        timestamp: 0,
    }
}

#[test]
fn low_impact_route_passes_order_validation() {
    // Order: amount 1_000_000, slippage tolerance 0.01; route impact
    // 0.001 passes.
    let o = order(1_000_000, 10_000, None);
    assert!(validate_execution(&o, &route(990_000, 1_000)).is_ok());
}

#[test]
fn excessive_impact_is_trading_failed_regardless_of_output() {
    // The same order against impact 0.02 fails, whatever the output.
    let o = order(1_000_000, 10_000, None);
    for output in [0u64, 990_000, u64::MAX] {
        let result = validate_execution(&o, &route(output, 20_000));
        assert!(matches!(result, Err(CoralError::TradingFailed(_))));
    }
}

#[test]
fn output_below_minimum_received_is_trading_failed() {
    let o = order(1_000_000, 10_000, Some(995_000));
    let result = validate_execution(&o, &route(990_000, 1_000));
    assert!(matches!(result, Err(CoralError::TradingFailed(_))));
    assert!(validate_execution(&o, &route(995_000, 1_000)).is_ok());
}

#[test]
fn test_trade_executor() {
    // One registered venue offering one benign route: planning succeeds
    // and a successful fill settles into the telemetry.
    let mut coordinator = ExecutionCoordinator::new(policy());
    let o = order(1_000_000, 10_000, None);
    let candidates = vec![RouteCandidate {
        venue: 1,
        route: route(990_000, 1_000),
    }];
    let plan = coordinator.plan_trade(&o, candidates).unwrap();
    assert_eq!(plan.venue, 1);
    let result = coordinator.settle_trade(&o, Ok(fill("mock_signature", 1_000_000)), 150);
    assert!(result.is_ok());
    let summary = coordinator.metrics_summary();
    assert_eq!(summary.total_trades, 1);
    assert_eq!(summary.total_errors, 0);
    assert_eq!(summary.success_rate, 1_000_000);
}

#[test]
fn planning_rejects_when_winner_violates_order_constraints() {
    // The only candidate passes the venue gate but exceeds the order's
    // slippage tolerance.
    let mut coordinator = ExecutionCoordinator::new(policy());
    let o = order(1_000_000, 10_000, None);
    let candidates = vec![RouteCandidate {
        venue: 1,
        route: route(990_000, 20_000),
    }];
    let result = coordinator.plan_trade(&o, candidates);
    assert!(matches!(result, Err(CoralError::TradingFailed(_))));
}

#[test]
fn planning_fails_without_eligible_candidates() {
    let mut coordinator = ExecutionCoordinator::new(policy());
    let o = order(1_000_000, 10_000, None);
    let result = coordinator.plan_trade(&o, Vec::new());
    assert!(matches!(result, Err(CoralError::TradingFailed(_))));
}

#[test]
fn earliest_of_equal_candidates_wins() {
    let mut coordinator = ExecutionCoordinator::new(policy());
    let o = order(1_000_000, 10_000, None);
    let candidates = vec![
        RouteCandidate {
            venue: 7,
            route: route(990_000, 1_000),
        },
        RouteCandidate {
            venue: 8,
            route: route(990_000, 1_000),
        },
    ];
    let plan = coordinator.plan_trade(&o, candidates).unwrap();
    assert_eq!(plan.venue, 7);
}

#[test]
fn failed_execution_is_recorded_and_passes_through() {
    // A failed settlement reaches the ledger as a success=false record
    // and bumps the error counter; the error itself comes back unchanged.
    let mut coordinator = ExecutionCoordinator::new(policy());
    let o = order(500, 10_000, None);
    let outcome = coordinator.settle_trade(
        &o,
        Err(CoralError::NetworkError("venue unreachable".to_string())),
        40,
    );
    assert!(matches!(outcome, Err(CoralError::NetworkError(_))));
    let auth = coordinator.settle_trade(
        &o,
        Err(CoralError::AuthenticationError("bad credentials".to_string())),
        41,
    );
    assert!(matches!(auth, Err(CoralError::AuthenticationError(_))));
    let summary = coordinator.metrics_summary();
    assert_eq!(summary.total_errors, 2);
    assert_eq!(summary.success_rate, 0);
    assert_eq!(summary.profit_loss, 0);
    let rollup = coordinator
        .metrics
        .get_token_performance(&o.from_token)
        .unwrap();
    assert_eq!(rollup.total_trades, 2);
    assert_eq!(rollup.successful_trades, 0);
    assert_eq!(rollup.total_volume, 1_000);
}

#[test]
fn success_rate_counts_failed_settlements() {
    // One successful and one failed settlement: the rate is 1/2 of the
    // unit scale, not 1.
    let mut coordinator = ExecutionCoordinator::new(policy());
    let o = order(1_000_000, 10_000, None);
    let filled = coordinator.settle_trade(&o, Ok(fill("sig-1", 1_000_000)), 20);
    assert!(filled.is_ok());
    let failed = coordinator.settle_trade(
        &o,
        Err(CoralError::TradingFailed("venue rejected the swap".to_string())),
        21,
    );
    assert!(failed.is_err());
    let summary = coordinator.metrics_summary();
    assert_eq!(summary.success_rate, 500_000);
    assert_eq!(summary.total_errors, 1);
}
