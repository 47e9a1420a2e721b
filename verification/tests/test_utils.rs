use snipercor::config::{Config, TradingMode};
use snipercor::modules::strategy::{StrategyType, TradeAction, TradingSignal};

fn micros(x: f64) -> u64 {
    (x * 1_000_000.0).round() as u64
}

struct TestConfigBuilder {
    config: Config,
}

impl TestConfigBuilder {
    fn new() -> Self {
        let mut config = Config::default();
        config.trading.mode = TradingMode::Paper;
        config.trading.max_position_size = micros(100.0);
        config.trading.max_daily_loss = micros(50.0);
        config.overmind.enabled = true;
        config.overmind.tensorzero_gateway_url = "http://localhost:3001".to_string();
        config.overmind.jito_endpoint = "http://localhost:3002".to_string();
        config.overmind.max_execution_latency_ms = 25;
        config.overmind.ai_confidence_threshold = micros(0.7);
        Self { config }
    }

    fn with_overmind_enabled(mut self, enabled: bool) -> Self {
        self.config.overmind.enabled = enabled;
        self
    }

    fn with_trading_mode(mut self, mode: TradingMode) -> Self {
        self.config.trading.mode = mode;
        self
    }

    fn with_max_latency(mut self, latency_ms: u64) -> Self {
        self.config.overmind.max_execution_latency_ms = latency_ms;
        self
    }

    fn build(self) -> Config {
        self.config
    }
}

fn create_signal(strategy: StrategyType, action: TradeAction, confidence: f64) -> TradingSignal {
    TradingSignal {
        signal_id: uuid::Uuid::new_v4().to_string(),
        strategy_type: strategy,
        action,
        symbol: "SOL/USDC".to_string(),
        quantity: micros(100.0),
        target_price: micros(50.0),
        confidence: micros(confidence),
        timestamp: chrono::Utc::now().timestamp_millis(),
    }
}

fn high_confidence_signal() -> TradingSignal {
    create_signal(StrategyType::SoulMeteorSniping, TradeAction::Buy, 0.95)
}

fn assert_signal_valid(signal: &TradingSignal) {
    assert!(!signal.signal_id.is_empty(), "Signal ID cannot be empty");
    assert!(signal.quantity > 0, "Quantity must be positive");
    assert!(signal.target_price > 0, "Target price must be positive");
    assert!(signal.confidence <= micros(1.0));
    assert!(signal.is_well_formed());
}

#[test]
fn test_config_builder() {
    let config = TestConfigBuilder::new()
        .with_overmind_enabled(true)
        .with_trading_mode(TradingMode::Paper)
        .with_max_latency(50)
        .build();

    assert!(config.overmind.enabled);
    assert_eq!(config.overmind.max_execution_latency_ms, 50);
}

#[test]
fn test_signal_generator() {
    let signal = high_confidence_signal();
    assert_signal_valid(&signal);
    assert!(signal.confidence >= micros(0.9));
}

#[test]
fn test_signal_processing_workflow() {
    let high_conf_signal = high_confidence_signal();
    let low_conf_signal = create_signal(StrategyType::SoulMeteorSniping, TradeAction::Buy, 0.3);
    let medium_conf_signal = create_signal(StrategyType::SoulMeteorSniping, TradeAction::Buy, 0.7);

    assert!(high_conf_signal.confidence >= micros(0.9));
    assert!(low_conf_signal.confidence <= micros(0.5));
    assert!(medium_conf_signal.confidence >= micros(0.6) && medium_conf_signal.confidence <= micros(0.8));

    let mut processed_count = 0;
    for signal in [high_conf_signal, low_conf_signal, medium_conf_signal] {
        processed_count += 1;
        assert!(!signal.signal_id.is_empty(), "Signal ID should not be empty");
        assert!(signal.quantity > 0, "Quantity should be positive");
        assert!(signal.confidence <= micros(1.0), "Confidence should be in [0,1]");
    }
    assert_eq!(processed_count, 3, "Should process all 3 signals");
}
