use snipercor::modules::risk::{
    ApprovedSignal, RiskManager, RiskParameters, RiskRejection, RiskWeights,
};
use snipercor::modules::strategy::{StrategyType, TradeAction, TradingSignal};

fn micros(x: f64) -> u64 {
    (x * 1_000_000.0).round() as u64
}

fn params() -> RiskParameters {
    RiskParameters {
        max_position_size: micros(1000.0),
        max_daily_loss: micros(500.0),
        min_confidence_threshold: micros(0.6),
    }
}

fn signal(quantity: f64, price: f64, confidence: f64, strategy: StrategyType) -> TradingSignal {
    TradingSignal {
        signal_id: "sig-1".to_string(),
        symbol: "SOL/USDC".to_string(),
        action: TradeAction::Buy,
        quantity: micros(quantity),
        target_price: micros(price),
        confidence: micros(confidence),
        timestamp: 1,
        strategy_type: strategy,
    }
}

#[test]
fn test_risk_manager_creation() {
    let risk_params = RiskParameters {
        max_position_size: micros(1000.0),
        max_daily_loss: micros(500.0),
        min_confidence_threshold: micros(0.6),
    };

    let manager = RiskManager::new(risk_params);
    assert!(!manager.is_running);
    assert_eq!(manager.daily_pnl, 0);
    assert_eq!(manager.get_daily_pnl(), 0);
    assert_eq!(manager.risk_weights, RiskWeights::default());
}

#[test]
fn approval_keeps_the_size_and_scores_the_risk() {
    let mut manager = RiskManager::new(params());
    let approved: ApprovedSignal = manager
        .evaluate_signal(signal(100.0, 100.0, 0.8, StrategyType::MomentumTrading), 99)
        .unwrap();
    assert_eq!(approved.approved_quantity, micros(100.0));
    assert_eq!(approved.approval_timestamp, 99);
    assert_eq!(approved.original_signal.signal_id, "sig-1");
    // 0.4 * (1 - 0.8) + 0.3 * (100 / 1000) + 0.3 * 0.2 = 0.17
    assert_eq!(approved.risk_score, micros(0.17));
    assert!(approved.is_well_formed());
    assert_eq!(manager.approved_count, 1);
    assert_eq!(manager.rejected_count, 0);
}

#[test]
fn approval_clamps_the_size_to_the_largest_position() {
    let mut manager = RiskManager::new(params());
    let approved = manager
        .evaluate_signal(signal(5000.0, 2.0, 0.9, StrategyType::Arbitrage), 1)
        .unwrap();
    assert_eq!(approved.approved_quantity, micros(1000.0));
    assert!(approved.approved_quantity <= approved.original_signal.quantity);
    assert!(approved.approved_quantity <= params().max_position_size);
    // 0.4 * 0.1 + 0.3 * 1 + 0.3 * 0.1 = 0.37
    assert_eq!(approved.risk_score, micros(0.37));
}

#[test]
fn confidence_below_the_threshold_is_rejected_and_counted() {
    let mut manager = RiskManager::new(params());
    let verdict = manager.evaluate_signal(signal(100.0, 100.0, 0.4, StrategyType::MomentumTrading), 1);
    assert_eq!(verdict.unwrap_err(), RiskRejection::LowConfidence);
    assert_eq!(manager.rejected_count, 1);
    assert_eq!(manager.approved_count, 0);
}

#[test]
fn confidence_at_the_threshold_passes() {
    let mut manager = RiskManager::new(params());
    assert!(manager
        .evaluate_signal(signal(100.0, 100.0, 0.6, StrategyType::MomentumTrading), 1)
        .is_ok());
}

#[test]
fn malformed_signal_is_rejected_first() {
    let mut manager = RiskManager::new(params());
    let mut bad = signal(100.0, 100.0, 0.1, StrategyType::MomentumTrading);
    bad.confidence = 2_000_000;
    assert_eq!(manager.evaluate_signal(bad, 1).unwrap_err(), RiskRejection::InvalidSignal);
}

#[test]
fn nothing_to_approve_is_rejected() {
    let mut manager = RiskManager::new(params());
    let verdict = manager.evaluate_signal(signal(0.0, 100.0, 0.9, StrategyType::MomentumTrading), 1);
    assert_eq!(verdict.unwrap_err(), RiskRejection::PositionLimit);
}

#[test]
fn daily_loss_at_the_limit_is_rejected() {
    let mut manager = RiskManager::new(params());
    manager.update_daily_pnl(-499_999_999);
    assert!(manager.check_daily_loss_limits());
    assert!(manager
        .evaluate_signal(signal(100.0, 100.0, 0.8, StrategyType::MomentumTrading), 1)
        .is_ok());
    manager.update_daily_pnl(-1);
    assert_eq!(manager.get_daily_pnl(), -500_000_000);
    assert!(!manager.check_daily_loss_limits());
    let verdict = manager.evaluate_signal(signal(100.0, 100.0, 0.8, StrategyType::MomentumTrading), 1);
    assert_eq!(verdict.unwrap_err(), RiskRejection::DailyLossLimit);
}

#[test]
fn risk_score_is_held_to_one() {
    let mut manager = RiskManager::new(params());
    manager.risk_weights.axiom_meme_coin = 5_000_000;
    let score = manager.calculate_risk_score(&signal(1000.0, 1.0, 0.6, StrategyType::AxiomMemeCoin));
    assert_eq!(score, 1_000_000);
    let low = manager.calculate_risk_score(&signal(10.0, 1.0, 1.0, StrategyType::Arbitrage));
    // 0.4 * 0 + 0.3 * 0.01 + 0.3 * 0.1
    assert_eq!(low, micros(0.033));
}

#[test]
fn position_limits_take_the_smaller() {
    let manager = RiskManager::new(params());
    assert_eq!(
        manager.check_position_limits(&signal(1000.000001, 1.0, 0.9, StrategyType::Arbitrage)),
        micros(1000.0)
    );
    assert_eq!(
        manager.check_position_limits(&signal(999.0, 1.0, 0.9, StrategyType::Arbitrage)),
        micros(999.0)
    );
}

#[test]
fn evaluate_signal_now_stamps_the_clock() {
    let mut manager = RiskManager::new(params());
    manager.start();
    assert!(manager.is_running);
    let approved = manager
        .evaluate_signal_now(signal(100.0, 100.0, 0.8, StrategyType::MomentumTrading))
        .unwrap();
    assert!(approved.approval_timestamp > 1_600_000_000_000);
    manager.stop();
    assert!(!manager.is_running);
}
