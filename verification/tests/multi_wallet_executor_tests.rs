use snipercor::config::TradingMode;
use snipercor::modules::executor::{ExecutionResult, ExecutionStatus};
use snipercor::modules::hft_engine::{
    ExecutionResult as HFTExecutionResult, HFTConfig, HFTError,
};
use snipercor::modules::multi_wallet_executor::{
    wallet_of_transaction, HandleError, MultiWalletExecutor, RouteError,
};
use snipercor::modules::risk::{ApprovedSignal, RiskManager, RiskParameters};
use snipercor::modules::strategy::{StrategyType, TradeAction, TradingSignal};
use snipercor::modules::wallet_manager::{
    StrategyAllocation, WalletConfig, WalletConfigBuilder, WalletManager, WalletMetrics,
    WalletStatus, WalletType,
};
use solana_sdk::signature::Keypair;
use solana_sdk::signer::Signer;

fn micros(x: f64) -> u64 {
    (x * 1_000_000.0).round() as u64
}

fn wallet(id: &str, kind: WalletType, strategy: StrategyType, percent: f64) -> WalletConfig {
    WalletConfigBuilder::new_at(id.to_string(), id.to_string(), Keypair::new().to_base58_string(), 0)
        .unwrap()
        .wallet_type(kind)
        .add_strategy_allocation(strategy, micros(percent), micros(1000.0))
        .build()
}

fn manager_of(wallets: Vec<WalletConfig>) -> WalletManager {
    let mut manager = WalletManager::new();
    manager.initialize(wallets).unwrap();
    manager
}

fn approved(strategy: StrategyType, quantity: f64, price: f64, confidence: f64) -> ApprovedSignal {
    let mut gate = RiskManager::new(RiskParameters {
        max_position_size: micros(1000.0),
        max_daily_loss: micros(500.0),
        min_confidence_threshold: micros(0.6),
    });
    gate.evaluate_signal(
        TradingSignal {
            signal_id: "intent-1".to_string(),
            symbol: "SOL/USDC".to_string(),
            action: TradeAction::Buy,
            quantity: micros(quantity),
            target_price: micros(price),
            confidence: micros(confidence),
            timestamp: 1,
            strategy_type: strategy,
        },
        2,
    )
    .unwrap()
}

fn paper(fallback: Option<&str>) -> MultiWalletExecutor {
    MultiWalletExecutor::new(
        TradingMode::Paper,
        "rpc".to_string(),
        5000,
        fallback.map(|id| id.to_string()),
    )
}

#[test]
fn paper_happy_path_through_the_router() {
    // One primary wallet with all of its allocation on momentum trading.
    let manager = manager_of(vec![wallet("main", WalletType::Primary, StrategyType::MomentumTrading, 100.0)]);
    let mut executor = paper(None);
    let signal = approved(StrategyType::MomentumTrading, 100.0, 100.0, 0.8);
    let result: ExecutionResult =
        executor.process_signal_with(&manager, false, &signal, &None, 1, "n1", 50);
    assert_eq!(result.status, ExecutionStatus::Confirmed);
    assert_eq!(result.signal_id, "intent-1");
    assert_eq!(result.transaction_id, "main_paper_n1");
    assert_eq!(result.executed_quantity, micros(100.0));
    assert_eq!(result.executed_price, micros(100.0));
    assert_eq!(result.fees, micros(10.0));
    assert_eq!(result.timestamp, 50);
    let stats = executor.get_execution_stats();
    assert_eq!(stats.total_executions, 1);
    assert_eq!(stats.successful_executions, 1);
    assert_eq!(stats.failed_executions, 0);
    assert_eq!(stats.wallet_usage.len(), 1);
    assert_eq!(stats.wallet_usage[0].wallet_id, "main");
    assert_eq!(stats.wallet_usage[0].executions, 1);
}

#[test]
fn router_starvation_gives_one_failed_result() {
    let mut conservative = wallet("c", WalletType::Conservative, StrategyType::MomentumTrading, 70.0);
    conservative.strategy_allocation.push(StrategyAllocation {
        strategy_type: StrategyType::Arbitrage,
        allocation_percentage: micros(30.0),
        max_position_size: micros(500.0),
        enabled: false,
    });
    let manager = manager_of(vec![conservative]);
    let mut executor = paper(None);
    let signal = approved(StrategyType::Arbitrage, 10.0, 10.0, 0.9);
    let result = executor.process_signal_with(&manager, false, &signal, &None, 1, "n", 9);
    assert_eq!(result.status, ExecutionStatus::Failed);
    assert_eq!(result.error_message.as_deref(), Some("NoSuitableWallet"));
    assert_eq!(result.signal_id, "intent-1");
    assert_eq!(result.executed_quantity, 0);
    assert_eq!(executor.get_execution_stats().failed_executions, 1);
    assert_eq!(
        executor.route_signal(&manager, false, &signal, Vec::new(), 1, 9).unwrap_err(),
        RouteError::NoSuitableWallet
    );
}

#[test]
fn halted_engine_refuses_every_signal() {
    let manager = manager_of(vec![wallet("main", WalletType::Primary, StrategyType::MomentumTrading, 100.0)]);
    let mut executor = paper(Some("main"));
    let signal = approved(StrategyType::MomentumTrading, 100.0, 100.0, 0.8);
    let result = executor.process_signal_with(&manager, true, &signal, &None, 1, "n", 9);
    assert_eq!(result.status, ExecutionStatus::Failed);
    assert_eq!(result.error_message.as_deref(), Some("halted"));
    assert_eq!(result.signal_id, "intent-1");
    assert_eq!(
        executor.select_wallet_for_signal(&manager, true, &signal, 0).unwrap_err(),
        RouteError::Halted
    );
    let after = executor.process_signal(&manager, false, &signal, &None, 1);
    assert_eq!(after.status, ExecutionStatus::Confirmed);
    assert!(after.transaction_id.starts_with("main_paper_"));
}

#[test]
fn preferred_wallet_types_follow_the_strategy() {
    let executor = paper(None);
    let preferred = |s| executor.determine_preferred_wallet_type(s);
    assert_eq!(preferred(StrategyType::Arbitrage), Some(WalletType::Arbitrage));
    assert_eq!(preferred(StrategyType::TokenSniping), Some(WalletType::HFT));
    assert_eq!(preferred(StrategyType::MomentumTrading), Some(WalletType::Primary));
    assert_eq!(preferred(StrategyType::SoulMeteorSniping), Some(WalletType::Experimental));
    assert_eq!(preferred(StrategyType::MeteoraDAMM), Some(WalletType::Experimental));
    assert_eq!(preferred(StrategyType::DeveloperTracking), Some(WalletType::Experimental));
    assert_eq!(preferred(StrategyType::AxiomMemeCoin), Some(WalletType::Experimental));
    assert_eq!(preferred(StrategyType::AIDecision), Some(WalletType::Primary));
}

#[test]
fn criteria_ask_for_the_notional_and_a_tenth_more() {
    let executor = paper(None);
    let signal = approved(StrategyType::Arbitrage, 100.0, 2.5, 0.9);
    let criteria = executor.selection_criteria(&signal, vec!["x".to_string()]);
    assert_eq!(criteria.strategy_type, StrategyType::Arbitrage);
    assert_eq!(criteria.required_balance, micros(275.0));
    assert_eq!(criteria.risk_tolerance, signal.risk_score);
    assert_eq!(criteria.preferred_wallet_type, Some(WalletType::Arbitrage));
    assert_eq!(criteria.exclude_wallets, vec!["x".to_string()]);
}

#[test]
fn routing_prefers_the_type_and_honours_exclusions() {
    let mut manager = manager_of(vec![
        wallet("p", WalletType::Primary, StrategyType::Arbitrage, 100.0),
        wallet("arb-b", WalletType::Arbitrage, StrategyType::Arbitrage, 10.0),
        wallet("arb-a", WalletType::Arbitrage, StrategyType::Arbitrage, 10.0),
    ]);
    let executor = paper(None);
    let signal = approved(StrategyType::Arbitrage, 1.0, 1.0, 0.9);
    let routed = executor.route_signal(&manager, false, &signal, Vec::new(), 0, 77).unwrap();
    assert_eq!(routed.selected_wallet_id, "arb-a");
    assert_eq!(routed.wallet_selection_reason, "Best score");
    assert_eq!(routed.routing_timestamp, 77);
    assert_eq!(routed.original_signal.original_signal.signal_id, "intent-1");
    let next = executor
        .route_signal(&manager, false, &signal, vec!["arb-a".to_string()], 0, 77)
        .unwrap();
    assert_eq!(next.selected_wallet_id, "arb-b");
    let mut busy = WalletMetrics::empty("arb-a".to_string(), 0);
    busy.risk_utilization = micros(100.0);
    manager.update_wallet_metrics(busy);
    manager.update_wallet_metrics(WalletMetrics::empty("arb-b".to_string(), 0));
    let routed = executor.route_signal(&manager, false, &signal, Vec::new(), 0, 77).unwrap();
    assert_eq!(routed.selected_wallet_id, "arb-b");
}

#[test]
fn fallback_is_used_when_selection_fails_or_runs_out_of_time() {
    let mut manager = manager_of(vec![
        wallet("p", WalletType::Primary, StrategyType::MomentumTrading, 100.0),
        wallet("spare", WalletType::Secondary, StrategyType::Arbitrage, 1.0),
    ]);
    let executor = paper(Some("spare"));
    let momentum = approved(StrategyType::MomentumTrading, 1.0, 1.0, 0.9);
    // Within its time the selection wins.
    let routed = executor.route_signal(&manager, false, &momentum, Vec::new(), 5000, 1).unwrap();
    assert_eq!(routed.selected_wallet_id, "p");
    // Out of time the fallback is used.
    let routed = executor.route_signal(&manager, false, &momentum, Vec::new(), 5001, 1).unwrap();
    assert_eq!(routed.selected_wallet_id, "spare");
    assert_eq!(routed.wallet_selection_reason, "Fallback due to selection failure");
    // Without a wallet for the strategy the fallback is used too.
    let sniping = approved(StrategyType::TokenSniping, 1.0, 1.0, 0.9);
    let routed = executor.route_signal(&manager, false, &sniping, Vec::new(), 0, 1).unwrap();
    assert_eq!(routed.selected_wallet_id, "spare");
    // A fallback that is not active is not used.
    manager.wallets[1].status = WalletStatus::Maintenance;
    assert_eq!(
        executor.route_signal(&manager, false, &sniping, Vec::new(), 0, 1).unwrap_err(),
        RouteError::NoSuitableWallet
    );
    let unknown = paper(Some("nobody"));
    assert_eq!(
        unknown.route_signal(&manager, false, &sniping, Vec::new(), 0, 1).unwrap_err(),
        RouteError::NoSuitableWallet
    );
}

#[test]
fn signing_handle_needs_an_active_wallet() {
    let pair = Keypair::new();
    let config = WalletConfigBuilder::new_at("w".to_string(), "W".to_string(), pair.to_base58_string(), 0)
        .unwrap()
        .add_strategy_allocation(StrategyType::MomentumTrading, micros(100.0), micros(1.0))
        .build();
    let mut manager = manager_of(vec![config]);
    let executor = paper(None);
    let signal = approved(StrategyType::MomentumTrading, 1.0, 1.0, 0.9);
    let mut routed = executor.route_signal(&manager, false, &signal, Vec::new(), 0, 1).unwrap();
    assert_eq!(executor.fetch_signing_handle(&manager, &routed).unwrap().pubkey(), pair.pubkey());
    manager.wallets[0].status = WalletStatus::Suspended;
    assert_eq!(
        executor.fetch_signing_handle(&manager, &routed).unwrap_err(),
        HandleError::WalletInactive
    );
    routed.selected_wallet_id = "gone".to_string();
    assert_eq!(
        executor.fetch_signing_handle(&manager, &routed).unwrap_err(),
        HandleError::WalletNotFound
    );
}

#[test]
fn live_ai_modes_prefix_the_wallet() {
    let manager = manager_of(vec![wallet("w1", WalletType::Primary, StrategyType::MomentumTrading, 100.0)]);
    let mut executor = MultiWalletExecutor::new_with_hft(
        TradingMode::Live,
        "rpc".to_string(),
        5000,
        None,
        HFTConfig::default(),
    )
    .unwrap();
    executor.start();
    assert!(executor.is_running);
    let signal = approved(StrategyType::MomentumTrading, 100.0, 100.0, 0.8);
    let executed = Some(Ok(HFTExecutionResult::Executed {
        signal_id: "ai".to_string(),
        bundle_id: "bundle-1".to_string(),
        latency_ms: 5,
        estimated_profit: 0,
        ai_confidence: micros(0.9),
    }));
    let result = executor.process_signal_with(&manager, false, &signal, &executed, 0, "n", 1);
    assert_eq!(result.transaction_id, "w1_bundle-1");
    assert_eq!(result.fees, micros(15.0));
    let skipped = Some(Ok(HFTExecutionResult::Skipped { reason: "r".to_string(), latency_ms: 1 }));
    let result = executor.process_signal_with(&manager, false, &signal, &skipped, 0, "n", 1);
    assert_eq!(result.status, ExecutionStatus::Skipped);
    assert_eq!(result.transaction_id, "w1_");
    assert!(result.error_message.unwrap().contains("confidence"));
    let failed: Option<Result<HFTExecutionResult, HFTError>> = Some(Err(HFTError::InferenceTimeout));
    let result = executor.process_signal_with(&manager, false, &signal, &failed, 0, "n9", 1);
    assert_eq!(result.transaction_id, "w1_n9");
    assert_eq!(result.fees, micros(25.0));
    let stats = executor.get_execution_stats();
    assert_eq!(stats.total_executions, 3);
    assert_eq!(stats.successful_executions, 2);
    assert_eq!(stats.wallet_usage[0].executions, 3);
    executor.stop();
    assert!(!executor.is_running);
    let mut bad = HFTConfig::default();
    bad.max_bundle_size = 0;
    assert!(MultiWalletExecutor::new_with_hft(TradingMode::Live, "r".to_string(), 1, None, bad).is_err());
}

#[test]
fn statistics_count_by_the_wallet_of_the_transaction() {
    assert_eq!(wallet_of_transaction("main_paper_abc"), "main");
    assert_eq!(wallet_of_transaction("nounderscore"), "nounderscore");
    assert_eq!(wallet_of_transaction("_x"), "");
    assert_eq!(wallet_of_transaction(""), "");
    let mut executor = paper(None);
    let mut result = ExecutionResult {
        signal_id: "s".to_string(),
        transaction_id: "b_paper_1".to_string(),
        status: ExecutionStatus::Cancelled,
        executed_quantity: 0,
        executed_price: 0,
        fees: 0,
        timestamp: 0,
        error_message: None,
    };
    executor.update_execution_stats(&result);
    result.transaction_id = "a_paper_2".to_string();
    result.status = ExecutionStatus::Failed;
    executor.update_execution_stats(&result);
    result.transaction_id = "b_x".to_string();
    result.status = ExecutionStatus::Confirmed;
    executor.update_execution_stats(&result);
    let stats = executor.get_execution_stats();
    assert_eq!(stats.total_executions, 3);
    assert_eq!(stats.successful_executions, 1);
    assert_eq!(stats.failed_executions, 1);
    let usage: Vec<(&str, u64)> =
        stats.wallet_usage.iter().map(|u| (u.wallet_id.as_str(), u.executions)).collect();
    assert_eq!(usage, vec![("b", 2), ("a", 1)]);
}

#[test]
fn a_routing_is_completed_into_one_result() {
    let manager = manager_of(vec![wallet("w", WalletType::Primary, StrategyType::MomentumTrading, 100.0)]);
    let mut executor = paper(None);
    let signal = approved(StrategyType::MomentumTrading, 2.0, 3.0, 0.9);
    let routing = executor.route_signal(&manager, false, &signal, Vec::new(), 0, 4);
    let result = executor.complete_signal(routing, &signal, &None, "n", 5);
    assert_eq!(result.transaction_id, "w_paper_n");
    assert_eq!(result.fees, 6_000);
    assert_eq!(result.timestamp, 5);
    let halted = executor.complete_signal(Err(RouteError::Halted), &signal, &None, "n", 6);
    assert_eq!(halted.error_message.as_deref(), Some("halted"));
    let starved = executor.complete_signal(Err(RouteError::NoSuitableWallet), &signal, &None, "n", 7);
    assert_eq!(starved.error_message.as_deref(), Some("NoSuitableWallet"));
    assert_eq!(starved.status, ExecutionStatus::Failed);
    assert_eq!(executor.get_execution_stats().total_executions, 3);
    assert_eq!(executor.get_execution_stats().failed_executions, 2);
}

#[test]
fn a_wallet_carries_no_position_above_its_largest() {
    let mut small = wallet("small", WalletType::Primary, StrategyType::MomentumTrading, 100.0);
    small.risk_limits.max_position_size = micros(50.0);
    let mut large = wallet("large", WalletType::Primary, StrategyType::MomentumTrading, 1.0);
    large.risk_limits.max_position_size = micros(100.0);
    let mut manager = manager_of(vec![small, large]);
    let executor = paper(Some("small"));
    // A position of 50 goes to the wallet with the better score.
    let fits = approved(StrategyType::MomentumTrading, 50.0, 1.0, 0.9);
    let routed = executor.route_signal(&manager, false, &fits, Vec::new(), 0, 1).unwrap();
    assert_eq!(routed.selected_wallet_id, "small");
    // A position of 100 is too large for it.
    let larger = approved(StrategyType::MomentumTrading, 100.0, 1.0, 0.9);
    let routed = executor.route_signal(&manager, false, &larger, Vec::new(), 0, 1).unwrap();
    assert_eq!(routed.selected_wallet_id, "large");
    // Neither the selection nor the fallback takes a position that no
    // wallet may hold.
    manager.wallets[1].risk_limits.max_position_size = micros(99.999999);
    assert_eq!(
        executor.route_signal(&manager, false, &larger, Vec::new(), 0, 1).unwrap_err(),
        RouteError::NoSuitableWallet
    );
    assert_eq!(
        executor.route_signal(&manager, false, &larger, Vec::new(), 6000, 1).unwrap_err(),
        RouteError::NoSuitableWallet
    );
}

#[test]
fn process_signal_draws_an_identifier_of_36_characters() {
    let manager = manager_of(vec![wallet("main", WalletType::Primary, StrategyType::MomentumTrading, 100.0)]);
    let mut executor = MultiWalletExecutor::new(TradingMode::Live, "rpc".to_string(), 5000, None);
    let signal = approved(StrategyType::MomentumTrading, 1.0, 1.0, 0.9);
    let result = executor.process_signal(&manager, false, &signal, &None, 0);
    assert_eq!(result.status, ExecutionStatus::Confirmed);
    assert!(result.transaction_id.starts_with("main_"));
    assert_eq!(result.transaction_id.len(), 5 + 36);
}
