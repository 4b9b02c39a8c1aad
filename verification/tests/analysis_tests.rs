use coral::analysis::{
    AnalysisAggregator, AnalysisMetrics, AnalysisWeights, combine_analysis_results,
    derive_recommendation,
};
use coral::telemetry::MetricsCollector;
use coral::types::{
    AnalysisResult, CoralError, RiskLevel, SCORE_ONE, TokenId, TradeRecommendation,
};

fn source_result(token: TokenId, score: u64, risk: RiskLevel) -> AnalysisResult {
    AnalysisResult {
        token_address: token,
        authenticity_score: score,
        risk_level: risk,
        recommendation: TradeRecommendation::Hold {
            duration: "24h".to_string(),
            reevaluation_price: 0,
        },
        analysis_timestamp: 0,
    }
}

#[test]
fn weighted_score_exact_value() {
    let metrics = AnalysisMetrics {
        confidence_score: 800_000,
        risk_score: 500_000,
        reliability_score: 1_000_000,
    };
    let weights = AnalysisWeights::default();
    // 0.8*0.4 + 0.5*0.4 + 1.0*0.2 = 0.72
    assert_eq!(metrics.calculate_weighted_score(&weights), 720_000);
}

#[test]
fn weighted_score_stays_in_unit_range() {
    let weights = AnalysisWeights {
        confidence: 300_000,
        risk: 300_000,
        reliability: 400_000,
    };
    let inputs = [0u64, 1, 250_000, 500_000, 999_999, 1_000_000];
    for &c in inputs.iter() {
        for &r in inputs.iter() {
            for &l in inputs.iter() {
                let m = AnalysisMetrics {
                    confidence_score: c,
                    risk_score: r,
                    reliability_score: l,
                };
                let score = m.calculate_weighted_score(&weights);
                assert!(score <= SCORE_ONE);
            }
        }
    }
}

#[test]
fn weighted_score_clamped_when_weights_overweigh() {
    // Weights sum to 1.5: the raw combination exceeds the unit scale and
    // is clamped.
    let weights = AnalysisWeights {
        confidence: 1_000_000,
        risk: 500_000,
        reliability: 0,
    };
    let m = AnalysisMetrics {
        confidence_score: 1_000_000,
        risk_score: 1_000_000,
        reliability_score: 1_000_000,
    };
    assert_eq!(m.calculate_weighted_score(&weights), SCORE_ONE);
}

#[test]
fn one_extreme_source_dominates_risk() {
    let token = TokenId::new([3u8; 32]);
    let outcomes = vec![
        Some(source_result(token, 900_000, RiskLevel::Low)),
        Some(source_result(token, 850_000, RiskLevel::Low)),
        Some(source_result(token, 800_000, RiskLevel::Extreme)),
    ];
    let combined = combine_analysis_results(token, &outcomes, 99).unwrap();
    assert!(matches!(combined.risk_level, RiskLevel::Extreme));
    assert!(matches!(
        combined.recommendation,
        TradeRecommendation::Avoid { .. }
    ));
}

#[test]
fn two_successes_one_failure_uses_only_successes() {
    // 3 analyzers run, 2 succeed with Low risk and score 0.9, 1 fails:
    // the result uses only the 2 successes.
    let token = TokenId::new([4u8; 32]);
    let outcomes = vec![
        Some(source_result(token, 900_000, RiskLevel::Low)),
        None,
        Some(source_result(token, 900_000, RiskLevel::Low)),
    ];
    let combined = combine_analysis_results(token, &outcomes, 7).unwrap();
    assert!(matches!(combined.risk_level, RiskLevel::Low));
    assert_eq!(combined.authenticity_score, 900_000);
    assert_eq!(combined.analysis_timestamp, 7);
    match combined.recommendation {
        TradeRecommendation::Buy { confidence, .. } => assert_eq!(confidence, 900_000),
        other => panic!("expected a buy recommendation, got {:?}", other),
    }
}

#[test]
fn all_sources_failed_is_analysis_failed() {
    let token = TokenId::new([5u8; 32]);
    let outcomes: Vec<Option<AnalysisResult>> = vec![None, None, None];
    let result = combine_analysis_results(token, &outcomes, 0);
    assert!(matches!(result, Err(CoralError::AnalysisFailed(_))));
}

#[test]
fn empty_source_set_is_analysis_failed() {
    let token = TokenId::new([6u8; 32]);
    let outcomes: Vec<Option<AnalysisResult>> = Vec::new();
    let result = combine_analysis_results(token, &outcomes, 0);
    assert!(matches!(result, Err(CoralError::AnalysisFailed(_))));
}

#[test]
fn combined_score_is_truncated_average() {
    let token = TokenId::new([8u8; 32]);
    let outcomes = vec![
        Some(source_result(token, 500_000, RiskLevel::Medium)),
        Some(source_result(token, 500_001, RiskLevel::Low)),
    ];
    let combined = combine_analysis_results(token, &outcomes, 0).unwrap();
    assert_eq!(combined.authenticity_score, 500_000);
    assert!(matches!(combined.risk_level, RiskLevel::Medium));
    assert!(matches!(
        combined.recommendation,
        TradeRecommendation::Hold { .. }
    ));
}

#[test]
fn avoid_carries_one_reason_per_flagging_source() {
    let token = TokenId::new([9u8; 32]);
    let outcomes = vec![
        Some(source_result(token, 100_000, RiskLevel::High)),
        Some(source_result(token, 200_000, RiskLevel::Extreme)),
        Some(source_result(token, 900_000, RiskLevel::Low)),
    ];
    let combined = combine_analysis_results(token, &outcomes, 0).unwrap();
    match combined.recommendation {
        TradeRecommendation::Avoid {
            reasons,
            risk_factors,
        } => {
            assert_eq!(reasons.len(), 2);
            assert_eq!(reasons[0], "source flagged high or extreme risk");
            assert_eq!(risk_factors.len(), 1);
            assert_eq!(risk_factors[0], "aggregate risk at or above high");
        }
        other => panic!("expected avoid, got {:?}", other),
    }
}

#[test]
fn decision_table_is_total_over_risk_and_score() {
    let risks = [
        RiskLevel::Low,
        RiskLevel::Medium,
        RiskLevel::High,
        RiskLevel::Extreme,
    ];
    let scores = [0u64, 799_999, 800_000, 1_000_000];
    for &risk in risks.iter() {
        for &score in scores.iter() {
            let rec = derive_recommendation(score, risk, 1);
            match risk {
                RiskLevel::High | RiskLevel::Extreme => {
                    assert!(matches!(rec, TradeRecommendation::Avoid { .. }));
                }
                RiskLevel::Low if score >= 800_000 => {
                    assert!(matches!(rec, TradeRecommendation::Buy { .. }));
                }
                _ => assert!(matches!(rec, TradeRecommendation::Hold { .. })),
            }
        }
    }
}

#[test]
fn aggregator_records_analysis_telemetry() {
    let token = TokenId::new([10u8; 32]);
    let aggregator = AnalysisAggregator::new(AnalysisWeights::default());
    let mut metrics = MetricsCollector::new();
    let outcomes = vec![Some(source_result(token, 650_000, RiskLevel::Medium))];
    let result = aggregator.aggregate(token, &outcomes, &mut metrics);
    assert!(result.is_ok());
    let summary = metrics.get_metrics_summary();
    assert_eq!(summary.total_analyses, 1);
    assert_eq!(summary.total_trades, 0);
}

#[test]
fn combination_ignores_completion_order() {
    let token = TokenId::new([12u8; 32]);
    let a = source_result(token, 900_000, RiskLevel::Low);
    let b = source_result(token, 400_000, RiskLevel::High);
    let one_order = vec![Some(a.clone()), None, Some(b.clone())];
    let other_order = vec![Some(b), Some(a), None];
    let first = combine_analysis_results(token, &one_order, 1).unwrap();
    let second = combine_analysis_results(token, &other_order, 1).unwrap();
    assert_eq!(first.authenticity_score, second.authenticity_score);
    assert!(matches!(first.risk_level, RiskLevel::High));
    assert!(matches!(second.risk_level, RiskLevel::High));
}

#[test]
fn oversized_weights_are_a_config_error() {
    let weights = AnalysisWeights {
        confidence: 1_000_001,
        risk: 0,
        reliability: 0,
    };
    assert!(matches!(
        AnalysisAggregator::try_new(weights),
        Err(CoralError::ConfigError(_))
    ));
    assert!(AnalysisAggregator::try_new(AnalysisWeights::default()).is_ok());
}
