use snipercor::modules::ai_connector::{
    create_market_event, market_event_at, parse_action, AIAction, AIConnector, AIConnectorConfig, AIDecision,
    CommandRejection, MarketEventType, HEALTH_CHECK_KEY, HEALTH_RESPONSE_KEY, MARKET_EVENTS_KEY,
    TRADING_COMMANDS_KEY,
};
use snipercor::modules::strategy::{StrategyType, TradeAction};

fn micros(x: f64) -> u64 {
    (x * 1_000_000.0).round() as u64
}

fn decision(action: AIAction, confidence: f64, at: i64) -> AIDecision {
    AIDecision {
        decision_id: "test-123".to_string(),
        symbol: "SOL/USDC".to_string(),
        action,
        confidence: micros(confidence),
        reasoning: "Strong bullish signal".to_string(),
        quantity: micros(1000.0),
        target_price: Some(micros(100.0)),
        ai_context: None,
        timestamp: at,
        vector_memory_context: None,
    }
}

#[test]
fn test_ai_decision_conversion() {
    let ai_decision = AIDecision {
        decision_id: "test-123".to_string(),
        symbol: "SOL/USDC".to_string(),
        action: AIAction::Buy,
        confidence: micros(0.85),
        reasoning: "Strong bullish signal".to_string(),
        quantity: micros(1000.0),
        target_price: Some(micros(100.0)),
        ai_context: None,
        timestamp: chrono::Utc::now().timestamp_millis(),
        vector_memory_context: None,
    };

    let _config = AIConnectorConfig::default();

    assert_eq!(ai_decision.confidence, micros(0.85));
    assert_eq!(ai_decision.symbol, "SOL/USDC");

    let connector = AIConnector::new(AIConnectorConfig::default());
    let signal = connector.convert_ai_decision_to_signal(ai_decision).unwrap();
    assert_eq!(signal.signal_id, "test-123");
    assert_eq!(signal.symbol, "SOL/USDC");
    assert_eq!(signal.action, TradeAction::Buy);
    assert_eq!(signal.quantity, micros(1000.0));
    assert_eq!(signal.target_price, micros(100.0));
    assert_eq!(signal.confidence, micros(0.85));
    assert_eq!(signal.strategy_type, StrategyType::AIDecision);
}

#[test]
fn actions_become_sides() {
    let connector = AIConnector::new(AIConnectorConfig::default());
    let side = |action| connector.convert_ai_decision_to_signal(decision(action, 0.9, 0)).map(|s| s.action);
    assert_eq!(side(AIAction::Buy), Ok(TradeAction::Buy));
    assert_eq!(side(AIAction::Sell), Ok(TradeAction::Sell));
    assert_eq!(side(AIAction::StopLoss), Ok(TradeAction::Sell));
    assert_eq!(side(AIAction::TakeProfit), Ok(TradeAction::Sell));
    assert_eq!(side(AIAction::Hold), Err(CommandRejection::Hold));
    let mut unpriced = decision(AIAction::Buy, 0.9, 7);
    unpriced.target_price = None;
    let signal = connector.convert_ai_decision_to_signal(unpriced).unwrap();
    assert_eq!(signal.target_price, 0);
    assert_eq!(signal.timestamp, 7);
}

#[test]
fn commands_are_screened_for_age_then_confidence_then_holding() {
    let mut connector = AIConnector::new(AIConnectorConfig::default());
    let now = 100_000;
    assert!(connector.process_ai_decision(decision(AIAction::Buy, 0.7, now - 30_000), now).is_ok());
    assert_eq!(
        connector.process_ai_decision(decision(AIAction::Buy, 0.9, now - 30_001), now).unwrap_err(),
        CommandRejection::Stale
    );
    assert_eq!(
        connector.process_ai_decision(decision(AIAction::Hold, 0.1, now - 30_001), now).unwrap_err(),
        CommandRejection::Stale
    );
    assert_eq!(
        connector.process_ai_decision(decision(AIAction::Hold, 0.699999, now), now).unwrap_err(),
        CommandRejection::LowConfidence
    );
    assert_eq!(
        connector.process_ai_decision(decision(AIAction::Hold, 0.9, now), now).unwrap_err(),
        CommandRejection::Hold
    );
    // A command from the future is not stale.
    assert!(connector.process_ai_decision(decision(AIAction::Sell, 0.9, now + 5), now).is_ok());
    let metrics = connector.get_metrics();
    assert_eq!(metrics.decisions_received, 6);
    assert_eq!(metrics.decisions_processed, 2);
    assert_eq!(metrics.decisions_rejected, 4);
    assert!(connector.decision_is_stale(&decision(AIAction::Buy, 0.9, i64::MIN), i64::MAX));
    let fresh = decision(AIAction::Buy, 0.9, chrono::Utc::now().timestamp_millis());
    assert!(connector.listen_for_ai_decisions(fresh).is_ok());
    assert!(connector.listen_for_ai_decisions(decision(AIAction::Buy, 0.9, 0)).is_err());
}

#[test]
fn defaults_and_health() {
    let config = AIConnectorConfig::default();
    assert_eq!(config.dragonfly_url, "redis://localhost:6379");
    assert_eq!(config.brain_request_timeout_ms, 1000);
    assert_eq!(config.max_decision_age_ms, 30_000);
    assert_eq!(config.confidence_threshold, micros(0.7));
    assert_eq!(config.vector_cache_size, 1000);
    assert_eq!(config.retry_attempts, 3);
    let mut connector = AIConnector::new(config);
    assert!(connector.is_brain_connected());
    assert_eq!(connector.wait_seconds(), 1);
    connector.record_health(Some(false));
    assert!(!connector.is_brain_connected());
    assert_eq!(connector.get_metrics().brain_connection_errors, 0);
    connector.record_health(Some(true));
    assert!(connector.is_brain_connected());
    connector.record_health(None);
    assert!(!connector.is_brain_connected());
    assert_eq!(connector.get_metrics().brain_connection_errors, 1);
}

#[test]
fn names_and_keys_are_those_of_the_protocol() {
    assert_eq!(AIAction::Buy.as_text(), "BUY");
    assert_eq!(AIAction::Sell.as_text(), "SELL");
    assert_eq!(AIAction::Hold.as_text(), "HOLD");
    assert_eq!(AIAction::StopLoss.as_text(), "STOP_LOSS");
    assert_eq!(AIAction::TakeProfit.as_text(), "TAKE_PROFIT");
    assert_eq!(MarketEventType::PriceChange.as_text(), "PRICE_CHANGE");
    assert_eq!(MarketEventType::VolumeSpike.as_text(), "VOLUME_SPIKE");
    assert_eq!(MarketEventType::NewToken.as_text(), "NEW_TOKEN");
    assert_eq!(MarketEventType::LiquidityChange.as_text(), "LIQUIDITY_CHANGE");
    assert_eq!(MarketEventType::TechnicalSignal.as_text(), "TECHNICAL_SIGNAL");
    assert_eq!(MARKET_EVENTS_KEY, "overmind:market_events");
    assert_eq!(TRADING_COMMANDS_KEY, "overmind:trading_commands");
    assert_eq!(HEALTH_CHECK_KEY, "overmind:health_check");
    assert_eq!(HEALTH_RESPONSE_KEY, "overmind:health_response");
}

#[test]
fn market_events_are_stamped() {
    let event = market_event_at(
        "SOL/USDC".to_string(),
        micros(101.5),
        micros(2000.0),
        MarketEventType::VolumeSpike,
        "e-1".to_string(),
        33,
    );
    assert_eq!(event.event_id, "e-1");
    assert_eq!(event.symbol, "SOL/USDC");
    assert_eq!(event.price, micros(101.5));
    assert_eq!(event.volume, micros(2000.0));
    assert_eq!(event.timestamp, 33);
    assert_eq!(event.event_type, MarketEventType::VolumeSpike);
    assert!(event.metadata.is_empty());
    let fresh = create_market_event("X".to_string(), 1, 2, MarketEventType::NewToken);
    assert_eq!(fresh.event_id.len(), 36);
    assert!(fresh.timestamp > 1_600_000_000_000);
}

#[test]
fn actions_are_read_by_their_names() {
    assert_eq!(parse_action("BUY"), Some(AIAction::Buy));
    assert_eq!(parse_action("Sell"), Some(AIAction::Sell));
    assert_eq!(parse_action("HOLD"), Some(AIAction::Hold));
    assert_eq!(parse_action("STOP_LOSS"), Some(AIAction::StopLoss));
    assert_eq!(parse_action("TakeProfit"), Some(AIAction::TakeProfit));
    assert_eq!(parse_action("buy"), None);
    assert_eq!(parse_action("SHORT"), None);
    for action in [AIAction::Buy, AIAction::Sell, AIAction::Hold, AIAction::StopLoss, AIAction::TakeProfit] {
        assert_eq!(parse_action(&action.as_text()), Some(action));
    }
}
