use snipercor::config::TradingMode;
use snipercor::modules::executor::{
    parse_status, ExecutionResult, ExecutionStatus, Executor, AI_LIVE_FEE_RATE, AI_PAPER_FEE_RATE, LIVE_FEE_RATE,
    PAPER_FEE_RATE,
};
use snipercor::modules::hft_engine::{
    error_text, is_fallback, ExecutionResult as HFTExecutionResult, HFTConfig, HFTError, Phase,
};
use snipercor::modules::risk::ApprovedSignal;
use snipercor::modules::strategy::{StrategyType, TradeAction, TradingSignal};

fn micros(x: f64) -> u64 {
    (x * 1_000_000.0).round() as u64
}

fn approved(quantity: f64, price: f64) -> ApprovedSignal {
    ApprovedSignal {
        original_signal: TradingSignal {
            signal_id: "sig-7".to_string(),
            symbol: "SOL/USDC".to_string(),
            action: TradeAction::Buy,
            quantity: micros(quantity),
            target_price: micros(price),
            confidence: micros(0.8),
            timestamp: 5,
            strategy_type: StrategyType::MomentumTrading,
        },
        approved_quantity: micros(quantity),
        risk_score: micros(0.2),
        approval_timestamp: 6,
    }
}

fn paper() -> Executor {
    Executor::new(
        TradingMode::Paper,
        "https://api.mainnet-beta.solana.com".to_string(),
        "test_key".to_string(),
    )
}

fn with_hft(mode: TradingMode) -> Executor {
    Executor::new_with_hft(mode, "rpc".to_string(), "key".to_string(), HFTConfig::default()).unwrap()
}

fn executed(bundle: &str) -> Option<Result<HFTExecutionResult, HFTError>> {
    Some(Ok(HFTExecutionResult::Executed {
        signal_id: "ai-1".to_string(),
        bundle_id: bundle.to_string(),
        latency_ms: 12,
        estimated_profit: 5,
        ai_confidence: micros(0.9),
    }))
}

fn skipped() -> Option<Result<HFTExecutionResult, HFTError>> {
    Some(Ok(HFTExecutionResult::Skipped { reason: "Low AI confidence".to_string(), latency_ms: 3 }))
}

#[test]
fn executor_test_executor_creation() {
    let executor = Executor::new(
        TradingMode::Paper,
        "https://api.mainnet-beta.solana.com".to_string(),
        "test_key".to_string(),
    );

    assert!(!executor.is_running);
    assert!(!executor.hft_mode_enabled);
    assert!(executor.hft_engine.is_none());
}

#[test]
fn paper_happy_path_fills_at_the_target_for_a_tenth_of_a_percent() {
    let executor = paper();
    let signal = approved(100.0, 100.0);
    assert!(signal.is_well_formed());
    let result: ExecutionResult = executor.execute_paper_trade(&signal, "n1", 77);
    assert_eq!(result.status, ExecutionStatus::Confirmed);
    assert_eq!(result.signal_id, "sig-7");
    assert_eq!(result.transaction_id, "paper_n1");
    assert_eq!(result.executed_quantity, micros(100.0));
    assert_eq!(result.executed_price, micros(100.0));
    // 100 * 100 * 0.001 = 10.00
    assert_eq!(result.fees, micros(10.0));
    assert_eq!(result.timestamp, 77);
    assert_eq!(result.error_message, None);
    assert_eq!(PAPER_FEE_RATE, 1_000);
}

#[test]
fn live_fill_slips_and_costs_a_quarter_of_a_percent() {
    let executor = paper();
    let result = executor.execute_live_trade(&approved(100.0, 100.0), "tx-1", 78);
    assert_eq!(result.status, ExecutionStatus::Confirmed);
    assert_eq!(result.transaction_id, "tx-1");
    assert_eq!(result.executed_price, micros(100.5));
    assert_eq!(result.fees, micros(25.0));
    assert_eq!(LIVE_FEE_RATE, 2_500);
}

#[test]
fn live_fill_without_an_identifier_fails() {
    let executor = paper();
    let result = executor.execute_live_trade(&approved(100.0, 100.0), "", 78);
    assert_eq!(result.status, ExecutionStatus::Failed);
    assert_eq!(result.executed_quantity, 0);
    assert_eq!(result.fees, 0);
    assert_eq!(result.error_message.as_deref(), Some("missing transaction id"));
}

#[test]
fn ai_paper_fill_costs_half_the_paper_fee() {
    let executor = with_hft(TradingMode::Paper);
    let result = executor.execute_ai_paper_trade(&approved(100.0, 100.0), &executed("b-1"), "n2", 1);
    assert_eq!(result.status, ExecutionStatus::Confirmed);
    assert_eq!(result.transaction_id, "ai_paper_n2");
    assert_eq!(result.fees, micros(5.0));
    assert_eq!(AI_PAPER_FEE_RATE, 500);
}

#[test]
fn inference_timeout_falls_back_to_the_plain_paper_fee() {
    let executor = with_hft(TradingMode::Paper);
    let answer = Some(Err(HFTError::InferenceTimeout));
    let result = executor.execute_signal_with(&approved(100.0, 100.0), &answer, "n3", 1);
    assert_eq!(result.status, ExecutionStatus::Confirmed);
    assert_eq!(result.transaction_id, "paper_n3");
    // 0.1%, not 0.05%.
    assert_eq!(result.fees, micros(10.0));
    let skipped_result = executor.execute_signal_with(&approved(100.0, 100.0), &skipped(), "n4", 1);
    assert_eq!(skipped_result.fees, micros(10.0));
    let none = executor.execute_signal_with(&approved(100.0, 100.0), &None, "n5", 1);
    assert_eq!(none.fees, micros(10.0));
}

#[test]
fn ai_skip_in_live_mode_submits_nothing() {
    let executor = with_hft(TradingMode::Live);
    let result = executor.execute_signal_with(&approved(100.0, 100.0), &skipped(), "n6", 4);
    assert_eq!(result.status, ExecutionStatus::Skipped);
    assert!(result.error_message.as_deref().unwrap().contains("confidence"));
    assert_eq!(result.executed_quantity, 0);
    assert_eq!(result.executed_price, 0);
    assert_eq!(result.fees, 0);
    assert_eq!(result.transaction_id, "");
    assert_eq!(result.signal_id, "sig-7");
}

#[test]
fn ai_live_fill_takes_the_bundle_identifier() {
    let executor = with_hft(TradingMode::Live);
    let result = executor.execute_ai_live_trade(&approved(100.0, 100.0), &executed("bundle-9"), "n7", 4);
    assert_eq!(result.status, ExecutionStatus::Confirmed);
    assert_eq!(result.transaction_id, "bundle-9");
    assert_eq!(result.executed_price, micros(100.2));
    assert_eq!(result.fees, micros(15.0));
    assert_eq!(AI_LIVE_FEE_RATE, 1_500);
}

#[test]
fn ai_live_fill_without_a_bundle_identifier_fails() {
    let executor = with_hft(TradingMode::Live);
    let result = executor.execute_ai_live_trade(&approved(100.0, 100.0), &executed(""), "n7", 4);
    assert_eq!(result.status, ExecutionStatus::Failed);
    assert_eq!(result.error_message.as_deref(), Some("missing transaction id"));
}

#[test]
fn ai_live_falls_back_to_the_plain_live_fill_on_failure() {
    let executor = with_hft(TradingMode::Live);
    let answer = Some(Err(HFTError::InferenceMalformed));
    let result = executor.execute_ai_live_trade(&approved(100.0, 100.0), &answer, "n8", 4);
    assert_eq!(result.status, ExecutionStatus::Confirmed);
    assert_eq!(result.transaction_id, "n8");
    assert_eq!(result.fees, micros(25.0));
}

#[test]
fn every_mode_gives_one_result_under_the_signals_identifier() {
    let signal = approved(3.5, 20.25);
    for executor in [
        paper(),
        Executor::new(TradingMode::Live, "rpc".to_string(), "key".to_string()),
        with_hft(TradingMode::Paper),
        with_hft(TradingMode::Live),
    ] {
        for answer in [None, executed("b"), skipped(), Some(Err(HFTError::SubmissionUnavailable))] {
            let result = executor.execute_signal_with(&signal, &answer, "n", 9);
            assert_eq!(result.signal_id, signal.original_signal.signal_id);
            assert_eq!(result.timestamp, 9);
            if result.status == ExecutionStatus::Confirmed {
                assert!(!result.transaction_id.is_empty());
            }
        }
    }
}

#[test]
fn execute_signal_draws_a_fresh_identifier() {
    let executor = paper();
    let first = executor.execute_signal(&approved(1.0, 1.0), &None);
    let second = executor.execute_signal(&approved(1.0, 1.0), &None);
    assert!(first.transaction_id.starts_with("paper_"));
    assert_eq!(first.transaction_id.len(), 6 + 36);
    assert_ne!(first.transaction_id, second.transaction_id);
    assert!(first.timestamp > 1_600_000_000_000);
}

#[test]
fn fees_are_rounded_down_to_a_millionth() {
    let executor = paper();
    // 0.000003 * 0.5 = 0.0000015, which is 1 millionth; 0.1% of it is nothing.
    let mut signal = approved(0.000003, 0.5);
    let result = executor.execute_paper_trade(&signal, "n", 1);
    assert_eq!(result.fees, 0);
    signal.approved_quantity = micros(1.0);
    signal.original_signal.quantity = micros(1.0);
    signal.original_signal.target_price = micros(0.0015);
    // 1 * 0.0015 = 0.0015; 0.1% of it is 0.0000015, rounded down to 0.000001.
    assert_eq!(executor.execute_paper_trade(&signal, "n", 1).fees, 1);
}

#[test]
fn executor_starts_and_stops() {
    let mut executor = paper();
    executor.start();
    assert!(executor.is_running);
    executor.stop();
    assert!(!executor.is_running);
}

#[test]
fn executor_with_an_invalid_engine_is_refused() {
    let mut config = HFTConfig::default();
    config.ai_confidence_threshold = 1_000_001;
    let refused = Executor::new_with_hft(TradingMode::Paper, "r".to_string(), "k".to_string(), config);
    assert_eq!(refused.unwrap_err(), HFTError::InvalidConfig);
}

#[test]
fn result_clone_keeps_every_field() {
    let executor = paper();
    let result = executor.execute_live_trade(&approved(100.0, 100.0), "", 78);
    let copy = result.clone();
    assert_eq!(copy.signal_id, result.signal_id);
    assert_eq!(copy.transaction_id, result.transaction_id);
    assert_eq!(copy.status, result.status);
    assert_eq!(copy.error_message, result.error_message);
    assert_eq!(copy.timestamp, result.timestamp);
}

#[test]
fn ai_live_fails_when_the_submission_fails() {
    let executor = with_hft(TradingMode::Live);
    let failing = |error: HFTError, text: &str| {
        let result = executor.execute_ai_live_trade(&approved(100.0, 100.0), &Some(Err(error)), "n", 4);
        assert_eq!(result.status, ExecutionStatus::Failed);
        assert_eq!(result.error_message.as_deref(), Some(text));
        assert_eq!(result.executed_quantity, 0);
        assert_eq!(result.fees, 0);
        assert_eq!(result.signal_id, "sig-7");
    };
    failing(HFTError::SubmissionRejected { status: 400 }, "bundle submission rejected with status 400");
    failing(HFTError::SubmissionRejected { status: 503 }, "bundle submission rejected with status 503");
    failing(HFTError::SubmissionUnavailable, "bundle submission failed");
    failing(HFTError::BudgetExceeded(Phase::Submission), "budget exceeded at phase submission");
    failing(HFTError::BudgetExceeded(Phase::Inference), "budget exceeded at phase inference");
    let engine_failed = Some(Ok(HFTExecutionResult::Failed { error: "boom".to_string(), latency_ms: 1 }));
    let result = executor.execute_ai_live_trade(&approved(100.0, 100.0), &engine_failed, "n", 4);
    assert_eq!(result.status, ExecutionStatus::Failed);
    assert_eq!(result.error_message.as_deref(), Some("boom"));
    // A failure of the inference call itself falls back to the plain live fill.
    for error in [HFTError::InferenceTimeout, HFTError::InferenceUnavailable, HFTError::InferenceMalformed] {
        let result = executor.execute_ai_live_trade(&approved(100.0, 100.0), &Some(Err(error)), "n", 4);
        assert_eq!(result.status, ExecutionStatus::Confirmed);
        assert_eq!(result.fees, micros(25.0));
    }
    // On paper every failure falls back.
    let paper = with_hft(TradingMode::Paper);
    let result = paper.execute_ai_paper_trade(
        &approved(100.0, 100.0),
        &Some(Err(HFTError::SubmissionUnavailable)),
        "n",
        4,
    );
    assert_eq!(result.status, ExecutionStatus::Confirmed);
    assert_eq!(result.fees, micros(10.0));
}

#[test]
fn errors_say_what_happened() {
    assert_eq!(error_text(HFTError::InvalidConfig), "invalid configuration");
    assert_eq!(error_text(HFTError::InferenceTimeout), "inference timed out");
    assert_eq!(error_text(HFTError::InferenceUnavailable), "inference unavailable");
    assert_eq!(error_text(HFTError::InferenceMalformed), "inference malformed");
    assert_eq!(
        error_text(HFTError::SubmissionRejected { status: 65535 }),
        "bundle submission rejected with status 65535"
    );
    assert!(is_fallback(HFTError::InferenceTimeout));
    assert!(!is_fallback(HFTError::SubmissionUnavailable));
    assert!(!is_fallback(HFTError::BudgetExceeded(Phase::Inference)));
}

#[test]
fn a_live_signal_is_confirmed_under_a_fresh_identifier() {
    let executor = Executor::new(TradingMode::Live, "rpc".to_string(), "key".to_string());
    let result = executor.execute_signal(&approved(1.0, 1.0), &None);
    assert_eq!(result.status, ExecutionStatus::Confirmed);
    assert_eq!(result.transaction_id.len(), 36);
    assert_eq!(result.error_message, None);
}

#[test]
fn statuses_are_read_by_their_names() {
    assert_eq!(parse_status("Pending"), Some(ExecutionStatus::Pending));
    assert_eq!(parse_status("Confirmed"), Some(ExecutionStatus::Confirmed));
    assert_eq!(parse_status("Failed"), Some(ExecutionStatus::Failed));
    assert_eq!(parse_status("Cancelled"), Some(ExecutionStatus::Cancelled));
    assert_eq!(parse_status("Skipped"), Some(ExecutionStatus::Skipped));
    assert_eq!(parse_status("confirmed"), None);
    assert_eq!(parse_status(""), None);
}
