use snipercor::modules::hft_engine::{
    budget_error_text, classify_status, decision_from_fields, find_text_block, inference_url,
    AITradingSignal, AfterInference, AfterSubmission, DecisionFields, ExecutionResult, HFTConfig,
    HFTError, InferenceEvent, OvermindHFTEngine, Phase, SubmissionEvent, TensorZeroContent,
    TensorZeroResponse, TradingAction,
};

fn micros(x: f64) -> u64 {
    (x * 1_000_000.0).round() as u64
}

fn engine() -> OvermindHFTEngine {
    OvermindHFTEngine::new(HFTConfig::default()).unwrap()
}

fn decision(confidence: f64) -> AITradingSignal {
    AITradingSignal {
        signal_id: "ai-1".to_string(),
        signal_type: "momentum".to_string(),
        confidence: micros(confidence),
        action: TradingAction {
            action_type: "buy".to_string(),
            token_in: "SOL".to_string(),
            token_out: "USDC".to_string(),
            amount_in: 1000,
            min_amount_out: 990,
            slippage_tolerance: micros(0.01),
            priority_fee: 1000,
        },
        estimated_profit: 1_500_000,
        time_window_ms: 1000,
        ai_reasoning: "strong".to_string(),
    }
}

fn response(blocks: &[(&str, &str)]) -> TensorZeroResponse {
    TensorZeroResponse {
        inference_id: "i".to_string(),
        episode_id: "e".to_string(),
        variant_name: "v".to_string(),
        content: blocks
            .iter()
            .map(|(kind, text)| TensorZeroContent {
                content_type: kind.to_string(),
                text: text.to_string(),
            })
            .collect(),
        usage: None,
    }
}

const FULL: &str = r#"{"signal_type":"momentum","confidence":0.85,"action_type":"buy","token_in":"SOL","token_out":"USDC","amount_in":1000,"min_amount_out":990,"slippage_tolerance":0.01,"priority_fee":1000,"estimated_profit":-2.5,"time_window_ms":750,"reasoning":"because"}"#;

#[test]
fn test_hft_config_default() {
    let config = HFTConfig::default();
    assert_eq!(config.max_execution_latency_ms, 25);
    assert_eq!(config.ai_confidence_threshold, micros(0.7));
    assert_eq!(config.max_bundle_size, 5);
    assert_eq!(config.retry_attempts, 3);
    assert_eq!(config.tensorzero_gateway_url, "http://localhost:3000");
    assert_eq!(config.jito_endpoint, "https://mainnet.block-engine.jito.wtf");
}

#[test]
fn test_overmind_hft_engine_creation() {
    let config = HFTConfig::default();
    let engine = OvermindHFTEngine::new(config);
    assert!(engine.is_ok());
}

#[test]
fn test_hft_engine_creation() {
    let config = HFTConfig {
        tensorzero_gateway_url: "http://localhost:3001".to_string(),
        jito_endpoint: "http://localhost:3002".to_string(),
        max_execution_latency_ms: 25,
        max_bundle_size: 5,
        retry_attempts: 3,
        ai_confidence_threshold: micros(0.7),
    };
    let engine = OvermindHFTEngine::new(config);
    assert!(engine.is_ok(), "HFT Engine should be created successfully");
}

#[test]
fn test_hft_engine_invalid_config() {
    let mut config = HFTConfig::default();
    config.tensorzero_gateway_url = "invalid_url".to_string();
    let engine = OvermindHFTEngine::new(config);
    // The address is not looked at; requests would fail later.
    assert!(engine.is_ok());
}

#[test]
fn engine_refuses_a_threshold_above_one_and_empty_bundles() {
    let mut config = HFTConfig::default();
    config.ai_confidence_threshold = 1_000_001;
    assert_eq!(OvermindHFTEngine::new(config).unwrap_err(), HFTError::InvalidConfig);
    let mut config = HFTConfig::default();
    config.max_bundle_size = 0;
    assert_eq!(OvermindHFTEngine::new(config).unwrap_err(), HFTError::InvalidConfig);
}

#[test]
fn budget_is_split_in_thirds() {
    let config = HFTConfig::default();
    assert_eq!(config.inference_budget_ms(), 8);
    assert_eq!(config.submission_budget_ms(), 16);
    let mut wide = HFTConfig::default();
    wide.max_execution_latency_ms = u64::MAX;
    assert_eq!(wide.inference_budget_ms(), u64::MAX / 3);
    assert_eq!(wide.submission_budget_ms(), ((u64::MAX as u128 * 2) / 3) as u64);
}

#[test]
fn low_confidence_is_skipped_after_inference() {
    let mut engine = engine();
    match engine.after_inference(InferenceEvent::Decided(decision(0.4)), 5) {
        AfterInference::Done(Ok(ExecutionResult::Skipped { reason, latency_ms })) => {
            assert!(reason.contains("confidence"));
            assert_eq!(latency_ms, 5);
        }
        other => panic!("unexpected: {:?}", other),
    }
    assert_eq!(engine.get_metrics().ai_decisions_made, 1);
}

#[test]
fn confident_decision_goes_on_to_submission() {
    let mut engine = engine();
    match engine.after_inference(InferenceEvent::Decided(decision(0.7)), 8) {
        AfterInference::Submit(signal) => assert_eq!(signal.signal_id, "ai-1"),
        other => panic!("unexpected: {:?}", other),
    }
}

#[test]
fn inference_over_budget_fails_with_the_phase() {
    let mut engine = engine();
    match engine.after_inference(InferenceEvent::Decided(decision(0.9)), 9) {
        AfterInference::Done(Err(e)) => assert_eq!(e, HFTError::BudgetExceeded(Phase::Inference)),
        other => panic!("unexpected: {:?}", other),
    }
    assert_eq!(budget_error_text(Phase::Inference), "budget exceeded at phase inference");
    assert_eq!(budget_error_text(Phase::Submission), "budget exceeded at phase submission");
}

#[test]
fn inference_failures_end_the_execution() {
    let mut engine = engine();
    for (event, error) in [
        (InferenceEvent::TimedOut, HFTError::InferenceTimeout),
        (InferenceEvent::Unavailable, HFTError::InferenceUnavailable),
        (InferenceEvent::Malformed, HFTError::InferenceMalformed),
    ] {
        match engine.after_inference(event, 1) {
            AfterInference::Done(Err(e)) => assert_eq!(e, error),
            other => panic!("unexpected: {:?}", other),
        }
    }
    assert_eq!(engine.get_metrics().ai_decisions_made, 0);
}

#[test]
fn accepted_bundle_is_executed_and_counted() {
    let mut engine = engine();
    let signal = decision(0.9);
    let event = SubmissionEvent::Accepted { bundle_id: "b-1".to_string() };
    match engine.after_submission(&signal, event, 0, 20) {
        AfterSubmission::Done(Ok(ExecutionResult::Executed {
            signal_id,
            bundle_id,
            latency_ms,
            estimated_profit,
            ai_confidence,
        })) => {
            assert_eq!(signal_id, "ai-1");
            assert_eq!(bundle_id, "b-1");
            assert_eq!(latency_ms, 20);
            assert_eq!(estimated_profit, 1_500_000);
            assert_eq!(ai_confidence, micros(0.9));
        }
        other => panic!("unexpected: {:?}", other),
    }
    let metrics = engine.get_metrics();
    assert_eq!(metrics.bundles_submitted, 1);
    assert_eq!(metrics.total_executions, 1);
    assert_eq!(metrics.successful_executions, 1);
    assert_eq!(metrics.avg_latency_ms, 20_000_000);
}

#[test]
fn transient_rejection_is_retried_once_within_the_budget() {
    let mut engine = engine();
    let signal = decision(0.9);
    for status in [429u16, 500, 503, 599] {
        match engine.after_submission(&signal, SubmissionEvent::Rejected { status }, 0, 10) {
            AfterSubmission::Retry => {}
            other => panic!("unexpected: {:?}", other),
        }
    }
    // The second attempt is not retried.
    match engine.after_submission(&signal, SubmissionEvent::Rejected { status: 503 }, 1, 10) {
        AfterSubmission::Done(Err(e)) => assert_eq!(e, HFTError::SubmissionRejected { status: 503 }),
        other => panic!("unexpected: {:?}", other),
    }
    // Nor is an attempt that used up the budget.
    match engine.after_submission(&signal, SubmissionEvent::NetworkError, 0, 25) {
        AfterSubmission::Done(Err(e)) => assert_eq!(e, HFTError::SubmissionUnavailable),
        other => panic!("unexpected: {:?}", other),
    }
    match engine.after_submission(&signal, SubmissionEvent::NetworkError, 0, 24) {
        AfterSubmission::Retry => {}
        other => panic!("unexpected: {:?}", other),
    }
    assert_eq!(engine.get_metrics().failed_executions, 2);
}

#[test]
fn permanent_rejection_is_not_retried_and_keeps_the_status() {
    let mut engine = engine();
    let signal = decision(0.9);
    match engine.after_submission(&signal, SubmissionEvent::Rejected { status: 400 }, 0, 1) {
        AfterSubmission::Done(Err(e)) => assert_eq!(e, HFTError::SubmissionRejected { status: 400 }),
        other => panic!("unexpected: {:?}", other),
    }
    match engine.after_submission(&signal, SubmissionEvent::TimedOut, 0, 1) {
        AfterSubmission::Done(Err(e)) => assert_eq!(e, HFTError::BudgetExceeded(Phase::Submission)),
        other => panic!("unexpected: {:?}", other),
    }
}

#[test]
fn metrics_average_the_latency() {
    let mut engine = engine();
    engine.update_metrics(10, true);
    engine.update_metrics(15, false);
    let metrics = engine.get_metrics();
    assert_eq!(metrics.total_executions, 2);
    assert_eq!(metrics.successful_executions, 1);
    assert_eq!(metrics.failed_executions, 1);
    assert_eq!(metrics.total_latency_ms, 25);
    assert_eq!(metrics.avg_latency_ms, 12_500_000);
}

#[test]
fn status_codes_are_classified() {
    assert!(classify_status(200).is_ok());
    assert!(classify_status(299).is_ok());
    assert_eq!(classify_status(199).unwrap_err(), HFTError::SubmissionRejected { status: 199 });
    assert_eq!(classify_status(404).unwrap_err(), HFTError::SubmissionRejected { status: 404 });
    assert_eq!(classify_status(300).unwrap_err(), HFTError::SubmissionRejected { status: 300 });
}

#[test]
fn request_carries_the_market_data() {
    let request = engine().build_request("{\"price\":50}");
    assert_eq!(request.model_name, "openai::gpt-4o-mini");
    assert!(!request.stream);
    assert_eq!(request.input.messages.len(), 2);
    assert_eq!(request.input.messages[0].role, "system");
    assert!(request.input.messages[0].content.starts_with("You are THE OVERMIND PROTOCOL AI Brain."));
    assert_eq!(request.input.messages[1].role, "user");
    assert_eq!(request.input.messages[1].content, "Market data: {\"price\":50}");
    assert_eq!(
        request.tags,
        vec![
            ("strategy".to_string(), "overmind_hft".to_string()),
            ("latency_critical".to_string(), "true".to_string())
        ]
    );
    assert_eq!(inference_url("http://localhost:3000"), "http://localhost:3000/inference");
}

#[test]
fn first_text_block_is_found() {
    assert_eq!(find_text_block(&response(&[("image", "x"), ("text", "a"), ("text", "b")])), Some(1));
    assert_eq!(find_text_block(&response(&[("image", "x")])), None);
    assert_eq!(find_text_block(&response(&[])), None);
}

#[test]
fn answer_is_read_as_a_decision() {
    let signal = engine().parse_ai_response(&response(&[("tool", "{}"), ("text", FULL)])).unwrap();
    assert_eq!(signal.signal_type, "momentum");
    assert_eq!(signal.confidence, micros(0.85));
    assert_eq!(signal.action.action_type, "buy");
    assert_eq!(signal.action.token_in, "SOL");
    assert_eq!(signal.action.token_out, "USDC");
    assert_eq!(signal.action.amount_in, 1000);
    assert_eq!(signal.action.min_amount_out, 990);
    assert_eq!(signal.action.slippage_tolerance, micros(0.01));
    assert_eq!(signal.action.priority_fee, 1000);
    assert_eq!(signal.estimated_profit, -2_500_000);
    assert_eq!(signal.time_window_ms, 750);
    assert_eq!(signal.ai_reasoning, "because");
    assert_eq!(signal.signal_id.len(), 36);
}

#[test]
fn answer_without_a_decision_is_malformed() {
    let engine = engine();
    let malformed = |blocks: &[(&str, &str)]| {
        assert_eq!(
            engine.parse_ai_response(&response(blocks)).unwrap_err(),
            HFTError::InferenceMalformed
        );
    };
    malformed(&[]);
    malformed(&[("image", FULL)]);
    malformed(&[("text", "not json")]);
    malformed(&[("text", "[1,2]")]);
    // A missing field is no silent default.
    malformed(&[("text", &FULL.replace("\"confidence\":0.85,", ""))]);
    malformed(&[("text", &FULL.replace("\"reasoning\":\"because\"", "\"reasoning\":7"))]);
    malformed(&[("text", &FULL.replace("0.85", "1.5"))]);
    malformed(&[("text", &FULL.replace("0.85", "\"0.85\""))]);
    malformed(&[("text", &FULL.replace("\"amount_in\":1000", "\"amount_in\":-1"))]);
    malformed(&[("text", &FULL.replace("\"amount_in\":1000", "\"amount_in\":1.5"))]);
    // Only the first text block is read.
    malformed(&[("text", "{}"), ("text", FULL)]);
}

#[test]
fn fields_make_a_decision_only_when_complete() {
    let fields = || DecisionFields {
        signal_type: Some("s".to_string()),
        confidence: Some("0.5".to_string()),
        action_type: Some("buy".to_string()),
        token_in: Some("A".to_string()),
        token_out: Some("B".to_string()),
        amount_in: Some("1".to_string()),
        min_amount_out: Some("2".to_string()),
        slippage_tolerance: Some("1".to_string()),
        priority_fee: Some("3".to_string()),
        estimated_profit: Some("0.25".to_string()),
        time_window_ms: Some("4".to_string()),
        reasoning: Some("r".to_string()),
    };
    let signal = decision_from_fields(fields(), "id".to_string()).unwrap();
    assert_eq!(signal.signal_id, "id");
    assert_eq!(signal.confidence, 500_000);
    assert_eq!(signal.action.slippage_tolerance, 1_000_000);
    assert_eq!(signal.estimated_profit, 250_000);
    let mut missing = fields();
    missing.token_out = None;
    assert_eq!(
        decision_from_fields(missing, "id".to_string()).unwrap_err(),
        HFTError::InferenceMalformed
    );
    let mut wrong = fields();
    wrong.estimated_profit = Some("-+1".to_string());
    assert!(decision_from_fields(wrong, "id".to_string()).is_err());
    let mut wrong = fields();
    wrong.slippage_tolerance = Some("1.000001".to_string());
    assert!(decision_from_fields(wrong, "id".to_string()).is_err());
}

#[test]
fn bundle_identifier_is_read_from_the_acknowledgement() {
    let engine = engine();
    let ack: serde_json::Value = serde_json::from_str(r#"{"result":"bundle-42"}"#).unwrap();
    assert_eq!(engine.bundle_id_of(&ack), "bundle-42");
    let none: serde_json::Value = serde_json::from_str(r#"{"result":5}"#).unwrap();
    assert_eq!(engine.bundle_id_of(&none), "unknown");
    let other: serde_json::Value = serde_json::from_str(r#"[]"#).unwrap();
    assert_eq!(engine.bundle_id_of(&other), "unknown");
}

#[test]
fn answer_is_read_under_a_given_identifier() {
    let signal = engine().parse_ai_response_as(&response(&[("text", FULL)]), "given".to_string()).unwrap();
    assert_eq!(signal.signal_id, "given");
    assert_eq!(signal.confidence, micros(0.85));
    // Numbers may be written with a fraction of zero or as whole numbers.
    let whole = FULL.replace("0.85", "1").replace("0.01", "0.0");
    let signal = engine().parse_ai_response_as(&response(&[("text", &whole)]), "w".to_string()).unwrap();
    assert_eq!(signal.confidence, micros(1.0));
    assert_eq!(signal.action.slippage_tolerance, 0);
}

#[test]
fn call_timeouts_stay_within_what_is_left() {
    let config = HFTConfig::default();
    let first = config.call_timeouts(0).unwrap();
    assert_eq!((first.connect_ms, first.request_ms), (4, 8));
    // With 17 ms used, 8 ms are left: the call gets one less.
    let late = config.call_timeouts(17).unwrap();
    assert_eq!((late.connect_ms, late.request_ms), (3, 7));
    assert_eq!(config.call_timeouts(22).unwrap().request_ms, 2);
    assert!(config.call_timeouts(23).is_none());
    assert!(config.call_timeouts(25).is_none());
    assert!(config.call_timeouts(u64::MAX).is_none());
    let mut tight = HFTConfig::default();
    tight.max_execution_latency_ms = 5;
    assert!(tight.call_timeouts(0).is_none());
}
