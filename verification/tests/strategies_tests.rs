use snipercor::modules::dev_tracker::{
    DeveloperProfile, DeveloperTracker, MoneyFlow, TokenLaunch, TrackingConfig, TransactionType,
    WalletType,
};
use snipercor::modules::meteora_damm::{
    minutes_elapsed, DAMMConfig, DAMMOpportunity, DAMMPosition, DAMMRiskLevel, ExitStrategy,
    FeeSchedule, LaunchPlatform, MeteoraDAMMStrategy, SniperActivity,
};
use snipercor::modules::soul_meteor::{
    HolderDistribution, PoolAnalysis, RiskLevel, SoulMeteorAnalyzer, SoulMeteorFilters,
};
use snipercor::modules::strategy::{StrategyType, TradeAction};

fn micros(x: f64) -> u64 {
    (x * 1_000_000.0).round() as u64
}

fn pool() -> PoolAnalysis {
    PoolAnalysis {
        pool_address: "test_pool".to_string(),
        token_symbol: "TEST".to_string(),
        liquidity_usd: micros(25_000.0),
        age_minutes: 7,
        market_cap_usd: micros(1_200_000.0),
        volume_24h: micros(80_000.0),
        holder_distribution: HolderDistribution {
            top_10_percentage: micros(18.0),
            dev_percentage: micros(6.0),
            bundler_percentage: micros(3.0),
            sniper_percentage: micros(2.0),
            total_concentrated: micros(29.0),
        },
        soul_meteor_score: micros(8.2),
        risk_assessment: RiskLevel::Low,
    }
}

fn opportunity(platform: LaunchPlatform, activity: SniperActivity) -> DAMMOpportunity {
    DAMMOpportunity {
        token_address: "test".to_string(),
        token_symbol: "TEST".to_string(),
        pool_address: None,
        launch_platform: platform,
        estimated_sniper_activity: activity,
        recommended_position_size: micros(5.0),
        fee_schedule: FeeSchedule::Exponential,
        risk_level: DAMMRiskLevel::Extreme,
    }
}

fn position(activity: SniperActivity, exit: ExitStrategy, entry: i64, fees: f64) -> DAMMPosition {
    DAMMPosition {
        opportunity: opportunity(LaunchPlatform::Launchcoin, activity),
        sol_amount: micros(1.0),
        token_amount: micros(10.0),
        entry_timestamp: entry,
        fees_collected_sol: micros(fees),
        target_fee_amount: micros(1.0),
        exit_strategy: exit,
    }
}

fn flow(to: &str, kind: TransactionType, amount: f64, at: i64) -> MoneyFlow {
    MoneyFlow {
        from_wallet: "exchange".to_string(),
        to_wallet: to.to_string(),
        amount_sol: micros(amount),
        timestamp: at,
        transaction_type: kind,
    }
}

fn profile(wallet: &str, rate: f64) -> DeveloperProfile {
    DeveloperProfile {
        wallet_address: wallet.to_string(),
        wallet_type: WalletType::Mixed,
        success_rate: micros(rate),
        average_profit_percentage: micros(25.0),
        tokens_created_24h: 60,
        last_activity: 0,
        risk_score: micros(0.7),
        tracking_confidence: micros(0.8),
    }
}

#[test]
fn test_pool_analysis_criteria() {
    let pool = PoolAnalysis {
        pool_address: "test_pool".to_string(),
        token_symbol: "TEST".to_string(),
        liquidity_usd: micros(25_000.0),
        age_minutes: 7,
        market_cap_usd: micros(1_200_000.0),
        volume_24h: micros(80_000.0),
        holder_distribution: HolderDistribution {
            top_10_percentage: micros(18.0),
            dev_percentage: micros(6.0),
            bundler_percentage: micros(3.0),
            sniper_percentage: micros(2.0),
            total_concentrated: micros(29.0),
        },
        soul_meteor_score: micros(8.2),
        risk_assessment: RiskLevel::Low,
    };

    let filters = SoulMeteorFilters::default();
    let analyzer = SoulMeteorAnalyzer::new(filters);

    assert!(analyzer.meets_criteria(&pool));
}

#[test]
fn test_confidence_calculation() {
    let pool = PoolAnalysis {
        pool_address: "test_pool".to_string(),
        token_symbol: "TEST".to_string(),
        liquidity_usd: micros(35_000.0),
        age_minutes: 4,
        market_cap_usd: micros(1_000_000.0),
        volume_24h: micros(120_000.0),
        holder_distribution: HolderDistribution {
            top_10_percentage: micros(15.0),
            dev_percentage: micros(5.0),
            bundler_percentage: micros(2.0),
            sniper_percentage: micros(1.0),
            total_concentrated: micros(23.0),
        },
        soul_meteor_score: micros(8.5),
        risk_assessment: RiskLevel::Low,
    };

    let confidence = pool.calculate_confidence();
    assert!(confidence > micros(0.8), "High-quality pool should have high confidence");
    // 0.5 + 0.1 + 0.15 + 0.1 + 0.1 + 0.05
    assert_eq!(confidence, micros(1.0));
}

#[test]
fn each_filter_can_fail_a_pool() {
    let analyzer = SoulMeteorAnalyzer::new(SoulMeteorFilters::default());
    let failing = |change: fn(&mut PoolAnalysis)| {
        let mut p = pool();
        change(&mut p);
        assert!(!analyzer.meets_criteria(&p));
    };
    failing(|p| p.liquidity_usd = 19_999_999_999);
    failing(|p| p.age_minutes = 11);
    failing(|p| p.market_cap_usd = 799_999_999_999);
    failing(|p| p.market_cap_usd = 2_000_000_000_001);
    failing(|p| p.holder_distribution.total_concentrated = 30_000_001);
    failing(|p| p.holder_distribution.dev_percentage = 10_000_001);
    failing(|p| p.volume_24h = 49_999_999_999);
    failing(|p| p.soul_meteor_score = 6_999_999);
    failing(|p| p.risk_assessment = RiskLevel::Extreme);
    // The bounds themselves pass.
    let mut edge = pool();
    edge.liquidity_usd = micros(20_000.0);
    edge.age_minutes = 10;
    edge.market_cap_usd = micros(2_000_000.0);
    edge.holder_distribution.total_concentrated = micros(30.0);
    edge.soul_meteor_score = micros(7.0);
    edge.risk_assessment = RiskLevel::High;
    assert!(analyzer.meets_criteria(&edge));
}

#[test]
fn filters_can_be_replaced() {
    let mut analyzer = SoulMeteorAnalyzer::new(SoulMeteorFilters::default());
    let mut strict = SoulMeteorFilters::default();
    strict.min_soul_meteor_score = micros(9.0);
    analyzer.update_filters(strict);
    assert!(!analyzer.meets_criteria(&pool()));
    assert_eq!(analyzer.filters.min_soul_meteor_score, micros(9.0));
}

#[test]
fn pool_confidence_is_lowered_for_risks_and_held_at_zero() {
    let mut risky = pool();
    risky.risk_assessment = RiskLevel::High;
    risky.holder_distribution.dev_percentage = micros(9.0);
    // 0.5 + 0.1 (score) - 0.2 - 0.1
    assert_eq!(risky.calculate_confidence(), micros(0.3));
    assert_eq!(pool().calculate_confidence(), micros(0.6));
}

#[test]
fn pool_becomes_a_signal() {
    let signal = pool().to_trading_signal_at("id-1".to_string(), 9);
    assert_eq!(signal.signal_id, "id-1");
    assert_eq!(signal.symbol, "TEST");
    assert_eq!(signal.action, TradeAction::Buy);
    assert_eq!(signal.quantity, micros(150.0));
    assert_eq!(signal.target_price, micros(1.2));
    assert_eq!(pool().estimate_entry_price(), micros(1.2));
    assert_eq!(signal.confidence, micros(0.6));
    assert_eq!(signal.timestamp, 9);
    assert_eq!(signal.strategy_type, StrategyType::SoulMeteorSniping);
    let quantity = |risk| {
        let mut p = pool();
        p.risk_assessment = risk;
        p.to_trading_signal().quantity
    };
    assert_eq!(quantity(RiskLevel::Medium), micros(100.0));
    assert_eq!(quantity(RiskLevel::High), micros(50.0));
    assert_eq!(quantity(RiskLevel::Extreme), micros(25.0));
}

#[test]
fn sample_pools_are_the_five_of_the_scan() {
    let analyzer = SoulMeteorAnalyzer::new(SoulMeteorFilters::default());
    let pools = analyzer.scan_new_pools();
    assert_eq!(pools.len(), 5);
    assert_eq!(pools[0].pool_address, "pool_address_0");
    assert_eq!(pools[4].token_symbol, "TOKEN4");
    assert_eq!(pools[2].liquidity_usd, micros(35_000.0));
    assert_eq!(pools[3].age_minutes, 11);
    assert_eq!(pools[1].market_cap_usd, micros(1_000_000.0));
    assert_eq!(pools[4].volume_24h, micros(175_000.0));
    assert_eq!(pools[2].holder_distribution.top_10_percentage, micros(21.0));
    assert_eq!(pools[2].holder_distribution.total_concentrated, micros(33.0));
    assert_eq!(pools[3].soul_meteor_score, micros(7.6));
    assert_eq!(pools[1].risk_assessment, RiskLevel::Low);
    assert_eq!(pools[2].risk_assessment, RiskLevel::Medium);
    let passing: Vec<bool> = pools.iter().map(|p| analyzer.meets_criteria(p)).collect();
    assert_eq!(passing, vec![true, true, false, false, false]);
}

#[test]
fn test_opportunity_evaluation() {
    let config = DAMMConfig::default();
    let strategy = MeteoraDAMMStrategy::new(config);

    let high_opportunity = DAMMOpportunity {
        token_address: "test".to_string(),
        token_symbol: "TEST".to_string(),
        pool_address: None,
        launch_platform: LaunchPlatform::Launchcoin,
        estimated_sniper_activity: SniperActivity::VeryHigh,
        recommended_position_size: micros(5.0),
        fee_schedule: FeeSchedule::Exponential,
        risk_level: DAMMRiskLevel::Extreme,
    };

    assert!(strategy.evaluate_opportunity(&high_opportunity));
}

#[test]
fn opportunities_need_bots_and_a_preferred_platform() {
    let mut strategy = MeteoraDAMMStrategy::new(DAMMConfig::default());
    assert!(strategy.evaluate_opportunity(&opportunity(LaunchPlatform::PumpFun, SniperActivity::High)));
    assert!(!strategy.evaluate_opportunity(&opportunity(LaunchPlatform::PumpFun, SniperActivity::Medium)));
    assert!(!strategy.evaluate_opportunity(&opportunity(LaunchPlatform::Launchcoin, SniperActivity::Low)));
    assert!(!strategy
        .evaluate_opportunity(&opportunity(LaunchPlatform::BonkLaunchpad, SniperActivity::VeryHigh)));
    assert!(!strategy.evaluate_opportunity(&opportunity(
        LaunchPlatform::Other("x".to_string()),
        SniperActivity::VeryHigh
    )));
    // Other platforms are of one kind, whatever their names.
    strategy.strategy_config.preferred_platforms.push(LaunchPlatform::Other("y".to_string()));
    assert!(strategy.evaluate_opportunity(&opportunity(
        LaunchPlatform::Other("x".to_string()),
        SniperActivity::VeryHigh
    )));
    strategy.strategy_config.preferred_platforms.clear();
    assert!(!strategy.evaluate_opportunity(&opportunity(LaunchPlatform::PumpFun, SniperActivity::High)));
}

#[test]
fn position_size_and_confidence_follow_the_activity() {
    let strategy = MeteoraDAMMStrategy::new(DAMMConfig::default());
    assert_eq!(strategy.calculate_position_size(&SniperActivity::VeryHigh), micros(5.0));
    assert_eq!(strategy.calculate_position_size(&SniperActivity::High), micros(3.5));
    assert_eq!(strategy.calculate_position_size(&SniperActivity::Medium), micros(2.0));
    assert_eq!(strategy.calculate_position_size(&SniperActivity::Low), micros(1.0));
    let confidence = |platform, activity| opportunity(platform, activity).calculate_confidence();
    assert_eq!(confidence(LaunchPlatform::Launchcoin, SniperActivity::VeryHigh), micros(0.8));
    assert_eq!(confidence(LaunchPlatform::PumpFun, SniperActivity::High), micros(0.7));
    assert_eq!(confidence(LaunchPlatform::Launchcoin, SniperActivity::High), micros(0.75));
    assert_eq!(confidence(LaunchPlatform::BonkLaunchpad, SniperActivity::Medium), micros(0.5));
    assert_eq!(confidence(LaunchPlatform::PumpFun, SniperActivity::Low), micros(0.3));
    assert_eq!(confidence(LaunchPlatform::PumpFun, SniperActivity::VeryHigh), micros(0.4));
    assert_eq!(confidence(LaunchPlatform::BonkLaunchpad, SniperActivity::High), micros(0.4));
    let signal = opportunity(LaunchPlatform::Launchcoin, SniperActivity::VeryHigh)
        .to_trading_signal_at("o-1".to_string(), 3);
    assert_eq!(signal.signal_id, "o-1");
    assert_eq!(signal.quantity, micros(5.0));
    assert_eq!(signal.target_price, micros(0.001));
    assert_eq!(signal.confidence, micros(0.8));
    assert_eq!(signal.strategy_type, StrategyType::MeteoraDAMM);
    assert_eq!(
        opportunity(LaunchPlatform::PumpFun, SniperActivity::High).to_trading_signal().symbol,
        "TEST"
    );
}

#[test]
fn sample_opportunities_are_the_three_of_the_scan() {
    let strategy = MeteoraDAMMStrategy::new(DAMMConfig::default());
    let found = strategy.find_early_tokens();
    assert_eq!(found.len(), 3);
    assert_eq!(found[0].token_address, "token_address_0");
    assert_eq!(found[2].token_symbol, "EARLY2");
    assert!(matches!(found[0].launch_platform, LaunchPlatform::Launchcoin));
    assert!(matches!(found[1].launch_platform, LaunchPlatform::PumpFun));
    assert!(matches!(found[2].launch_platform, LaunchPlatform::BonkLaunchpad));
    assert_eq!(found[0].recommended_position_size, micros(5.0));
    assert_eq!(found[1].recommended_position_size, micros(3.5));
    assert_eq!(found[2].recommended_position_size, micros(1.0));
    assert_eq!(found[2].estimated_sniper_activity, SniperActivity::Low);
    assert!(found[1].pool_address.is_none());
}

#[test]
fn positions_collect_fees_and_exit() {
    let mut strategy = MeteoraDAMMStrategy::new(DAMMConfig::default());
    let minute = 60_000;
    // Collects: a roll of 0.25 is below the chance of 0.3; the fee is twice 0.4.
    strategy.handle_new_position(position(SniperActivity::VeryHigh, ExitStrategy::FeeTarget(micros(5.0)), 0, 0.0));
    // Does not collect: 0.25 is not below the chance of 0.2.
    strategy.handle_new_position(position(SniperActivity::High, ExitStrategy::FeeTarget(micros(5.0)), 0, 0.0));
    // Collects and exits at once.
    strategy.handle_new_position(position(SniperActivity::VeryHigh, ExitStrategy::Immediate, 0, 0.0));
    // Too old to collect; its time is up.
    strategy.handle_new_position(position(SniperActivity::VeryHigh, ExitStrategy::TimeLimit(4), -minute, 0.0));
    // Reaches its target with this fee.
    strategy.handle_new_position(position(SniperActivity::VeryHigh, ExitStrategy::FeeTarget(micros(1.0)), 0, 0.2));
    let rolls = vec![(250_000u64, 400_000u64); 5];
    strategy.manage_active_positions_with(4 * minute - 1, &rolls);
    let fees: Vec<u64> = strategy.active_positions.iter().map(|p| p.fees_collected_sol).collect();
    assert_eq!(fees, vec![micros(0.8), 0]);
    assert_eq!(strategy.active_positions[1].opportunity.estimated_sniper_activity, SniperActivity::High);
    // After five minutes nothing is collected any more.
    strategy.manage_active_positions_with(5 * minute, &vec![(0, 999_999); 2]);
    let fees: Vec<u64> = strategy.active_positions.iter().map(|p| p.fees_collected_sol).collect();
    assert_eq!(fees, vec![micros(0.8), 0]);
}

#[test]
fn price_stop_exits_after_half_an_hour_without_fees() {
    let mut strategy = MeteoraDAMMStrategy::new(DAMMConfig::default());
    let minute = 60_000;
    strategy.handle_new_position(position(SniperActivity::Low, ExitStrategy::TokenPriceStop(micros(50.0)), 0, 0.099999));
    strategy.handle_new_position(position(SniperActivity::Low, ExitStrategy::TokenPriceStop(micros(50.0)), 0, 0.1));
    strategy.manage_active_positions_with(30 * minute, &vec![(0, 0); 2]);
    assert_eq!(strategy.active_positions.len(), 2);
    strategy.manage_active_positions_with(31 * minute, &vec![(0, 0); 2]);
    assert_eq!(strategy.active_positions.len(), 1);
    assert_eq!(strategy.active_positions[0].fees_collected_sol, micros(0.1));
    // Random words are taken modulo one.
    strategy.active_positions[0].entry_timestamp = 31 * minute;
    strategy.manage_active_positions_with(31 * minute, &vec![(7_000_000 + 99_999, 3_000_000 + 500_000)]);
    assert_eq!(strategy.active_positions[0].fees_collected_sol, micros(1.1));
    strategy.manage_active_positions();
    assert!(strategy.active_positions.len() <= 1);
}

#[test]
fn minutes_round_towards_zero() {
    assert_eq!(minutes_elapsed(0, 59_999), 0);
    assert_eq!(minutes_elapsed(0, 60_000), 1);
    assert_eq!(minutes_elapsed(60_000, 0), -1);
    assert_eq!(minutes_elapsed(59_999, 0), 0);
    assert_eq!(minutes_elapsed(i64::MIN, i64::MAX), 307_445_734_561_825);
}

#[test]
fn test_developer_profile_creation() {
    let flows = vec![MoneyFlow {
        from_wallet: "exchange".to_string(),
        to_wallet: "dev".to_string(),
        amount_sol: micros(10.0),
        timestamp: chrono::Utc::now().timestamp_millis(),
        transaction_type: TransactionType::FundingFromExchange,
    }];

    let tracker = DeveloperTracker::new(TrackingConfig::default());

    let profile = tracker.create_developer_profile("dev", &flows);
    assert!(profile.success_rate > 0);
}

#[test]
fn developer_profile_follows_the_funding() {
    let tracker = DeveloperTracker::new(TrackingConfig::default());
    let flows = |fresh: usize, other: usize| -> Vec<MoneyFlow> {
        let mut v = Vec::new();
        for _ in 0..fresh {
            v.push(flow("dev", TransactionType::FundingFromExchange, 1.0, 0));
        }
        for _ in 0..other {
            v.push(flow("dev", TransactionType::WalletToWallet, 1.0, 0));
        }
        v
    };
    let made = |fresh, other| tracker.create_developer_profile_at("dev", &flows(fresh, other), 5);
    let fresh = made(7, 3);
    assert_eq!(fresh.wallet_type, WalletType::Fresh);
    assert_eq!(fresh.success_rate, micros(0.25));
    assert_eq!(fresh.tokens_created_24h, 10);
    assert_eq!(fresh.last_activity, 5);
    assert_eq!(fresh.wallet_address, "dev");
    assert_eq!(fresh.average_profit_percentage, micros(25.0));
    assert_eq!(fresh.risk_score, micros(0.7));
    assert_eq!(fresh.tracking_confidence, micros(0.8));
    // Six tenths is not above six tenths, two tenths not below two tenths.
    assert_eq!(made(6, 4).wallet_type, WalletType::Mixed);
    assert_eq!(made(6, 4).success_rate, micros(0.35));
    assert_eq!(made(2, 8).wallet_type, WalletType::Mixed);
    assert_eq!(made(1, 9).wallet_type, WalletType::Aged);
    assert_eq!(made(1, 9).success_rate, micros(0.3));
    assert_eq!(made(0, 0).wallet_type, WalletType::Mixed);
}

#[test]
fn tracking_needs_success_activity_and_mixed_funding() {
    let tracker = DeveloperTracker::new(TrackingConfig::default());
    assert!(tracker.meets_tracking_criteria(&profile("d", 0.25)));
    assert!(!tracker.meets_tracking_criteria(&profile("d", 0.249999)));
    let mut idle = profile("d", 0.5);
    idle.tokens_created_24h = 49;
    assert!(!tracker.meets_tracking_criteria(&idle));
    let mut fresh = profile("d", 0.5);
    fresh.wallet_type = WalletType::Fresh;
    assert!(!tracker.meets_tracking_criteria(&fresh));
    let defaults = TrackingConfig::default();
    assert_eq!(defaults.max_entry_market_cap, micros(8000.0));
    assert_eq!(defaults.max_tracking_wallets, 20);
    assert_eq!(defaults.preferred_wallet_ratio.fresh_percentage, micros(40.0));
}

#[test]
fn funding_of_a_tracked_developer_tells_of_a_launch() {
    let mut tracker = DeveloperTracker::new(TrackingConfig::default());
    tracker.tracked_developers.push(profile("dev_wallet_1", 0.35));
    let funding = flow("dev_wallet_1", TransactionType::FundingFromExchange, 15.0, 0);
    let launch: TokenLaunch = tracker.analyze_flow_for_launch_at(&funding, 1_700_000_000_999, 4242).unwrap();
    assert_eq!(launch.token_address, "new_token_1700000000");
    assert_eq!(launch.token_symbol, "DEV4242");
    assert_eq!(launch.developer_wallet, "dev_wallet_1");
    assert_eq!(launch.launch_timestamp, 1_700_000_000_999);
    assert_eq!(launch.initial_market_cap, micros(7500.0));
    assert_eq!(launch.liquidity_amount, micros(12.0));
    assert_eq!(launch.predicted_success_probability, micros(0.35));
    assert_eq!(launch.entry_window_seconds, 30);
    assert!(tracker
        .analyze_flow_for_launch_at(&flow("stranger", TransactionType::FundingFromExchange, 15.0, 0), 1, 1)
        .is_none());
    assert!(tracker
        .analyze_flow_for_launch_at(&flow("dev_wallet_1", TransactionType::WalletToWallet, 15.0, 0), 1, 1)
        .is_none());
    assert!(tracker
        .analyze_flow_for_launch_at(&flow("dev_wallet_1", TransactionType::FundingFromExchange, 5.0, 0), 1, 1)
        .is_none());
    let early = tracker.analyze_flow_for_launch_at(&funding, -1, 0).unwrap();
    assert_eq!(early.token_address, "new_token_-1");
    assert_eq!(early.token_symbol, "DEV0");
    let drawn = tracker.analyze_flow_for_launch(&funding).unwrap();
    assert!(drawn.token_symbol.starts_with("DEV"));

    let signal = launch.to_trading_signal_at("l-1".to_string(), 8);
    assert_eq!(signal.signal_id, "l-1");
    assert_eq!(signal.symbol, "DEV4242");
    assert_eq!(signal.quantity, micros(25.0));
    assert_eq!(signal.target_price, micros(0.0075));
    assert_eq!(signal.confidence, micros(0.35));
    assert_eq!(signal.strategy_type, StrategyType::DeveloperTracking);
    assert_eq!(launch.to_trading_signal().action, TradeAction::Buy);
}

#[test]
fn sample_flows_and_forgetting() {
    let mut tracker = DeveloperTracker::new(TrackingConfig::default());
    let now = 100 * 86_400_000;
    let flows = tracker.detect_money_flows(now);
    assert_eq!(flows.len(), 3);
    assert_eq!(flows[1].from_wallet, "exchange_wallet_1");
    assert_eq!(flows[2].to_wallet, "dev_wallet_2");
    assert_eq!(flows[2].amount_sol, micros(20.0));
    assert_eq!(flows[2].timestamp, now - 1_200_000);
    assert_eq!(flows[0].transaction_type, TransactionType::FundingFromExchange);
    tracker.money_flows = flows;
    tracker.money_flows.push(flow("old", TransactionType::TokenDump, 1.0, now - 86_400_000));
    tracker.money_flows.push(flow("new", TransactionType::TokenDump, 1.0, now - 86_399_999));
    tracker.forget_old_flows(now);
    let kept: Vec<&str> = tracker.money_flows.iter().map(|f| f.to_wallet.as_str()).collect();
    assert_eq!(kept, vec!["dev_wallet_0", "dev_wallet_1", "dev_wallet_2", "new"]);
    tracker.forget_old_flows(now + 86_400_000);
    assert!(tracker.money_flows.is_empty());
}

#[test]
fn patterns_track_busy_mixed_wallets() {
    let mut config = TrackingConfig::default();
    config.min_tokens_per_day = 3;
    let mut tracker = DeveloperTracker::new(config);
    for kind in [
        TransactionType::FundingFromExchange,
        TransactionType::WalletToWallet,
        TransactionType::TokenCreation,
    ] {
        tracker.money_flows.push(flow("mixed", kind, 1.0, 0));
        tracker.money_flows.push(flow("fresh", TransactionType::FundingFromExchange, 1.0, 0));
    }
    tracker.money_flows.push(flow("rare", TransactionType::WalletToWallet, 1.0, 0));
    tracker.analyze_developer_patterns_at(9);
    assert_eq!(tracker.tracked_developers.len(), 1);
    assert_eq!(tracker.tracked_developers[0].wallet_address, "mixed");
    assert_eq!(tracker.tracked_developers[0].tokens_created_24h, 3);
    assert_eq!(tracker.tracked_developers[0].last_activity, 9);
    // A second look tracks the wallet anew, not twice.
    tracker.analyze_developer_patterns_at(10);
    assert_eq!(tracker.tracked_developers.len(), 1);
    assert_eq!(tracker.tracked_developers[0].last_activity, 10);
    tracker.analyze_developer_patterns();
    assert_eq!(tracker.money_flows.len(), 7);
}

#[test]
fn pruning_keeps_the_most_successful_in_their_order() {
    let mut config = TrackingConfig::default();
    config.max_tracking_wallets = 3;
    let mut tracker = DeveloperTracker::new(config);
    for (wallet, rate) in [("a", 0.5), ("b", 0.2), ("c", 0.9), ("d", 0.2), ("e", 0.7), ("f", 0.1)] {
        tracker.tracked_developers.push(profile(wallet, rate));
    }
    tracker.prune_tracked_developers();
    let kept: Vec<&str> = tracker.tracked_developers.iter().map(|p| p.wallet_address.as_str()).collect();
    assert_eq!(kept, vec!["a", "c", "e"]);
    tracker.prune_tracked_developers();
    assert_eq!(tracker.tracked_developers.len(), 3);
}

#[test]
fn profiles_move_one_time_in_ten() {
    let mut tracker = DeveloperTracker::new(TrackingConfig::default());
    tracker.tracked_developers.push(profile("a", 0.5));
    tracker.tracked_developers.push(profile("b", 0.98));
    // A roll of 0.1 is not below a tenth.
    tracker.update_profile_with(0, 100_000, 999_999, 5);
    assert_eq!(tracker.tracked_developers[0].success_rate, micros(0.5));
    assert_eq!(tracker.tracked_developers[0].last_activity, 0);
    // 0.5 + 0.8 / 10 - 0.05 = 0.53
    tracker.update_profile_with(0, 99_999, 800_000, 5);
    assert_eq!(tracker.tracked_developers[0].success_rate, micros(0.53));
    assert_eq!(tracker.tracked_developers[0].last_activity, 5);
    // Held to one and to zero.
    tracker.update_profile_with(1, 0, 999_999, 6);
    assert_eq!(tracker.tracked_developers[1].success_rate, micros(1.0));
    tracker.tracked_developers[1].success_rate = 10_000;
    tracker.update_profile_with(1, 1_000_000, 0, 7);
    assert_eq!(tracker.tracked_developers[1].success_rate, 0);
    tracker.update_developer_profiles();
    assert_eq!(tracker.tracked_developers.len(), 2);
    assert!(tracker.tracked_developers[0].success_rate <= micros(1.0));
}

#[test]
fn scans_keep_what_passes() {
    let analyzer = SoulMeteorAnalyzer::new(SoulMeteorFilters::default());
    let pools: Vec<String> = analyzer.screen_new_pools().into_iter().map(|p| p.token_symbol).collect();
    assert_eq!(pools, vec!["TOKEN0".to_string(), "TOKEN1".to_string()]);
    let strategy = MeteoraDAMMStrategy::new(DAMMConfig::default());
    let found: Vec<String> =
        strategy.scan_for_opportunities().into_iter().map(|o| o.token_symbol).collect();
    assert_eq!(found, vec!["EARLY0".to_string(), "EARLY1".to_string()]);
    let mut narrow = MeteoraDAMMStrategy::new(DAMMConfig::default());
    narrow.strategy_config.preferred_platforms.remove(0);
    let found: Vec<String> =
        narrow.scan_for_opportunities().into_iter().map(|o| o.token_symbol).collect();
    assert_eq!(found, vec!["EARLY1".to_string()]);
}

#[test]
fn scan_of_the_chain_tells_of_launches_and_forgets_old_flows() {
    let mut tracker = DeveloperTracker::new(TrackingConfig::default());
    let now = 10 * 86_400_000;
    tracker.tracked_developers.push(profile("dev_wallet_2", 0.4));
    tracker.tracked_developers.push(profile("dev_wallet_0", 0.3));
    tracker.money_flows.push(flow("stale", TransactionType::TokenDump, 1.0, now - 86_400_000));
    tracker.money_flows.push(flow("fresh", TransactionType::TokenDump, 1.0, now - 1));
    let launches = tracker.scan_money_flows_at(now, 9);
    let shown: Vec<(&str, u64, u64)> = launches
        .iter()
        .map(|l| (l.developer_wallet.as_str(), l.predicted_success_probability, l.liquidity_amount))
        .collect();
    assert_eq!(
        shown,
        vec![("dev_wallet_0", micros(0.3), micros(8.0)), ("dev_wallet_2", micros(0.4), micros(16.0))]
    );
    assert_eq!(launches[0].token_symbol, "DEV9");
    assert_eq!(launches[0].token_address, "new_token_864000");
    let kept: Vec<&str> = tracker.money_flows.iter().map(|f| f.to_wallet.as_str()).collect();
    assert_eq!(kept, vec!["fresh", "dev_wallet_0", "dev_wallet_1", "dev_wallet_2"]);
    assert!(tracker.scan_money_flows().len() <= 3);
    assert_eq!(tracker.tracked_developers.len(), 2);
}

#[test]
fn patterns_write_profiles_in_the_order_of_the_transfers() {
    let mut config = TrackingConfig::default();
    config.min_tokens_per_day = 3;
    let mut tracker = DeveloperTracker::new(config);
    tracker.tracked_developers.push(profile("second", 0.9));
    for kind in [
        TransactionType::FundingFromExchange,
        TransactionType::WalletToWallet,
        TransactionType::TokenCreation,
    ] {
        tracker.money_flows.push(flow("first", kind, 1.0, 0));
        tracker.money_flows.push(flow("second", kind, 1.0, 0));
    }
    tracker.analyze_developer_patterns_at(5);
    // The wallet that was tracked keeps its place; the new one comes last.
    let wallets: Vec<&str> =
        tracker.tracked_developers.iter().map(|p| p.wallet_address.as_str()).collect();
    assert_eq!(wallets, vec!["second", "first"]);
    assert_eq!(tracker.tracked_developers[0].success_rate, 350_000);
    assert_eq!(tracker.tracked_developers[0].last_activity, 5);
    assert_eq!(tracker.tracked_developers[1].tokens_created_24h, 3);
    // No more stay than may be tracked.
    tracker.tracking_config.max_tracking_wallets = 1;
    tracker.analyze_developer_patterns_at(6);
    assert_eq!(tracker.tracked_developers.len(), 1);
    assert_eq!(tracker.tracked_developers[0].wallet_address, "second");
    assert_eq!(tracker.tracked_developers[0].last_activity, 6);
}
