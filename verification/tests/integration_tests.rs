use coral::analysis::combine_analysis_results;
use coral::execution::{ExecutionCoordinator, RouteCandidate};
use coral::routing::RoutePolicy;
use coral::types::{
    AnalysisResult, CoralError, RiskLevel, RoutePreference, TokenId, TradeOrder,
    TradeRecommendation, TradeResult, TradeRoute,
};
use coral::util::parse_pubkey;

fn token_from_base58(address: &str, what: &str) -> TokenId {
    let pubkey = parse_pubkey(address).expect(what);
    TokenId::new(pubkey.to_bytes())
}

#[test]
fn test_token_analysis() {
    let test_token = token_from_base58(
        "TokenkegQfeZyiNwAJbNbGKPFXCWuBvf9Ss623VQ5DA",
        "Failed to parse token address",
    );
    let outcomes = vec![
        Some(AnalysisResult {
            token_address: test_token,
            authenticity_score: 700_000,
            risk_level: RiskLevel::Medium,
            recommendation: TradeRecommendation::Hold {
                duration: "24h".to_string(),
                reevaluation_price: 0,
            },
            analysis_timestamp: 0,
        }),
        None,
    ];
    let result = combine_analysis_results(test_token, &outcomes, 1_700_000_000);
    assert!(result.is_ok());
    let analysis = result.unwrap();
    assert!(analysis.authenticity_score <= 1_000_000);
    assert!(matches!(
        analysis.risk_level,
        RiskLevel::Low | RiskLevel::Medium | RiskLevel::High
    ));
    assert_eq!(analysis.token_address, test_token);
}

#[test]
fn test_trade_execution() {
    let from = token_from_base58(
        "TokenkegQfeZyiNwAJbNbGKPFXCWuBvf9Ss623VQ5DA",
        "Failed to parse token address",
    );
    let to = token_from_base58(
        "EPjFWdd5AufqSSqeM2qN1xzybapC8G4wEGGkZwyTDt1v",
        "Failed to parse USDC address",
    );
    let order = TradeOrder {
        from_token: from,
        to_token: to,
        amount: 1000000,
        slippage_tolerance: 10_000,
        minimum_received: None,
        route_preference: RoutePreference::BestPrice,
    };
    let mut coordinator = ExecutionCoordinator::new(RoutePolicy {
        max_hops: 3,
        max_price_impact: 100_000,
        minimum_liquidity: 0,
    });
    let candidates = vec![RouteCandidate {
        venue: 0,
        route: TradeRoute {
            hops: Vec::new(),
            total_fee: 1000,
            expected_output: 990000,
            price_impact: 1_000,
        },
    }];
    let plan = coordinator.plan_trade(&order, candidates).unwrap();
    let result = coordinator.settle_trade(
        &order,
        Ok(TradeResult {
            transaction_signature: "mock_signature".to_string(),
            executed_price: 1_000_000,
            amount: order.amount,
            fee: plan.route.total_fee,
            timestamp: 1_700_000_000,
        }),
        25,
    );
    assert!(result.is_ok());
}

#[test]
fn test_error_handling() {
    parse_pubkey("InvalidTokenAddress").expect_err("Should fail with invalid address");

    let unseen = TokenId::new([0u8; 32]);
    let outcomes: Vec<Option<AnalysisResult>> = vec![None, None];
    let result = combine_analysis_results(unseen, &outcomes, 0);
    assert!(matches!(result, Err(CoralError::AnalysisFailed(_))));
}
