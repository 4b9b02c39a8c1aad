use coral::routing::{
    RoutePolicy, RouteValidation, calculate_route_score, quote_from_route, select_best_route,
};
use coral::types::{CoralError, DexType, RouteHop, TokenId, TradeRoute};

fn policy() -> RoutePolicy {
    RoutePolicy {
        max_hops: 3,
        max_price_impact: 50_000,
        minimum_liquidity: 10_000,
    }
}

fn hop(dex: DexType, liquidity: u64) -> RouteHop {
    RouteHop {
        dex,
        input_token: TokenId::new([1u8; 32]),
        output_token: TokenId::new([2u8; 32]),
        pool_address: TokenId::new([3u8; 32]),
        fee_tier: 30,
        pool_liquidity: liquidity,
    }
}

fn route(hops: Vec<RouteHop>, fee: u64, output: u64, impact: u64) -> TradeRoute {
    TradeRoute {
        hops,
        total_fee: fee,
        expected_output: output,
        price_impact: impact,
    }
}

#[test]
fn perfect_route_scores_the_full_unit() {
    // No hops, no fee, no impact: every sub-score is 1.0.
    let r = route(Vec::new(), 0, 1_000, 0);
    assert_eq!(calculate_route_score(&r), 1_000_000);
}

#[test]
fn route_score_exact_value_with_one_hop() {
    // impact 0.1 -> 0.9; fee 1_000_000 of the 10_000_000 reference -> 0.9;
    // one Jupiter hop -> 0.95. Score = 0.4*0.9 + 0.3*0.9 + 0.3*0.95.
    let r = route(vec![hop(DexType::Jupiter, 1_000_000)], 1_000_000, 5_000, 100_000);
    assert_eq!(calculate_route_score(&r), 915_000);
}

#[test]
fn hop_penalty_and_lowest_trust_shape_reliability() {
    // Two hops: the lower trust (Orca, 0.9) counts, less one hop of
    // penalty (0.1) -> reliability 0.8; impact and fee sub-scores are
    // full, so the score is 0.4 + 0.3 + 0.24.
    let r = route(
        vec![hop(DexType::Jupiter, 1_000_000), hop(DexType::Orca, 1_000_000)],
        0,
        5_000,
        0,
    );
    assert_eq!(calculate_route_score(&r), 940_000);
}

#[test]
fn fees_at_the_reference_scale_score_zero() {
    let r = route(Vec::new(), 20_000_000, 5_000, 0);
    assert_eq!(calculate_route_score(&r), 700_000);
}

#[test]
fn higher_price_impact_never_scores_higher() {
    let impacts = [0u64, 1_000, 10_000, 100_000, 500_000, 1_000_000];
    let mut last = u64::MAX;
    for &impact in impacts.iter() {
        let r = route(vec![hop(DexType::Orca, 500_000)], 2_000, 1_000, impact);
        let score = calculate_route_score(&r);
        assert!(score <= last);
        last = score;
    }
}

#[test]
fn validation_gate_checks_all_three_thresholds() {
    let gate = RouteValidation::new(policy());
    let good = route(vec![hop(DexType::Raydium, 20_000)], 100, 1_000, 10_000);
    assert!(gate.validate(&good));

    let too_many_hops = route(
        vec![
            hop(DexType::Raydium, 20_000),
            hop(DexType::Raydium, 20_000),
            hop(DexType::Raydium, 20_000),
            hop(DexType::Raydium, 20_000),
        ],
        100,
        1_000,
        10_000,
    );
    assert!(!gate.validate(&too_many_hops));

    let too_much_impact = route(vec![hop(DexType::Raydium, 20_000)], 100, 1_000, 60_000);
    assert!(!gate.validate(&too_much_impact));

    let illiquid_pool = route(vec![hop(DexType::Raydium, 9_999)], 100, 1_000, 10_000);
    assert!(!gate.validate(&illiquid_pool));
}

#[test]
fn invalid_route_never_wins_despite_best_output() {
    // The gated-out route has by far the highest expected output.
    let invalid = route(Vec::new(), 0, 1_000_000_000, 900_000);
    let valid = route(vec![hop(DexType::Serum, 50_000)], 5_000, 42_000, 1_000);
    let winner = select_best_route(vec![invalid, valid], &policy()).unwrap();
    assert_eq!(winner.expected_output, 42_000);
}

#[test]
fn no_valid_route_is_trading_failed() {
    let bad1 = route(vec![hop(DexType::Orca, 1)], 0, 10, 1_000);
    let bad2 = route(Vec::new(), 0, 10, 900_000);
    let result = select_best_route(vec![bad1, bad2], &policy());
    assert!(matches!(result, Err(CoralError::TradingFailed(_))));
    let empty = select_best_route(Vec::new(), &policy());
    assert!(matches!(empty, Err(CoralError::TradingFailed(_))));
}

#[test]
fn ties_break_toward_highest_expected_output() {
    // Same hops, fee and impact: equal scores, the larger output wins.
    let small = route(vec![hop(DexType::Orca, 50_000)], 1_000, 100, 2_000);
    let large = route(vec![hop(DexType::Orca, 50_000)], 1_000, 200, 2_000);
    let winner = select_best_route(vec![small, large], &policy()).unwrap();
    assert_eq!(winner.expected_output, 200);
}

#[test]
fn selection_is_deterministic_for_a_fixed_candidate_set() {
    let candidates = || {
        vec![
            route(vec![hop(DexType::Jupiter, 40_000)], 3_000, 900, 4_000),
            route(vec![hop(DexType::Orca, 40_000)], 3_000, 900, 4_000),
            route(vec![hop(DexType::Serum, 40_000)], 100, 905, 30_000),
        ]
    };
    let first = select_best_route(candidates(), &policy()).unwrap();
    for _ in 0..5 {
        let again = select_best_route(candidates(), &policy()).unwrap();
        assert_eq!(again.expected_output, first.expected_output);
        assert_eq!(again.total_fee, first.total_fee);
        assert_eq!(again.price_impact, first.price_impact);
    }
}

#[test]
fn quote_mirrors_its_route() {
    let r = route(vec![hop(DexType::Jupiter, 99_000)], 777, 123_456, 5_000);
    let q = quote_from_route(1_000_000, r);
    assert_eq!(q.input_amount, 1_000_000);
    assert_eq!(q.output_amount, 123_456);
    assert_eq!(q.fee_amount, 777);
    assert_eq!(q.price_impact, 5_000);
    assert_eq!(q.route.expected_output, 123_456);
}
