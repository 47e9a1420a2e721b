//! The inference-driven execution engine: the request it sends, how it
//! reads the answer, its latency budget, and what it does after each of its
//! two outside calls.

use vstd::prelude::*;
use vstd::string::StringExecFns;
use crate::fixed::{saturating_add, saturating_sum, SCALE};
use crate::platform::new_uuid;
use crate::text::{parse_decimal, parse_signed_decimal, parse_u64, same_text, text_of};
use crate::text::{
    decimal_value, digits_value, is_decimal, is_signed_decimal, is_unsigned, signed_decimal_value,
    unsigned_part, without_plus,
};

verus! {

/// The configuration of the engine. The confidence threshold is a fraction
/// in millionths.
#[derive(Debug)]
pub struct HFTConfig {
    pub tensorzero_gateway_url: String,
    pub jito_endpoint: String,
    pub max_execution_latency_ms: u64,
    pub max_bundle_size: usize,
    pub retry_attempts: u32,
    pub ai_confidence_threshold: u64,
}

impl Clone for HFTConfig {
    fn clone(&self) -> (r: Self)
        ensures
            r == *self,
    {
        HFTConfig {
            tensorzero_gateway_url: self.tensorzero_gateway_url.clone(),
            jito_endpoint: self.jito_endpoint.clone(),
            max_execution_latency_ms: self.max_execution_latency_ms,
            max_bundle_size: self.max_bundle_size,
            retry_attempts: self.retry_attempts,
            ai_confidence_threshold: self.ai_confidence_threshold,
        }
    }
}

impl HFTConfig {
    /// A configuration is valid when its confidence threshold is at most one
    /// and a bundle may hold at least one transaction.
    pub open spec fn valid(&self) -> bool {
        self.ai_confidence_threshold <= SCALE && self.max_bundle_size >= 1
    }

    /// The time allowed for the inference call: a third of the whole budget.
    pub open spec fn inference_budget(&self) -> int {
        (self.max_execution_latency_ms as int) / 3
    }

    /// The time allowed for building and sending the bundle: two thirds of
    /// the whole budget.
    pub open spec fn submission_budget(&self) -> int {
        (self.max_execution_latency_ms * 2) / 3
    }

    /// The time allowed for the inference call, in milliseconds.
    pub fn inference_budget_ms(&self) -> (r: u64)
        ensures
            r as int == self.inference_budget(),
    {
        self.max_execution_latency_ms / 3
    }

    /// The time allowed for building and sending the bundle, in
    /// milliseconds.
    pub fn submission_budget_ms(&self) -> (r: u64)
        ensures
            r as int == self.submission_budget(),
    {
        ((self.max_execution_latency_ms as u128 * 2) / 3) as u64
    }
}

/// The timeouts of one call to the inference service, in milliseconds.
#[derive(Debug, Clone, Copy, PartialEq, Eq, Structural)]
pub struct CallTimeouts {
    pub connect_ms: u64,
    pub request_ms: u64,
}

impl HFTConfig {
    /// What is left of the whole budget when `elapsed_ms` of it are used.
    pub open spec fn remaining(&self, elapsed_ms: u64) -> int {
        if elapsed_ms >= self.max_execution_latency_ms {
            0
        } else {
            self.max_execution_latency_ms - elapsed_ms
        }
    }

    /// The time allowed for the whole inference call when `elapsed_ms` of
    /// the budget are used: the budget of the inference phase, and strictly
    /// less than what is left of the whole budget.
    pub open spec fn request_timeout(&self, elapsed_ms: u64) -> int {
        if self.inference_budget() < self.remaining(elapsed_ms) {
            self.inference_budget()
        } else {
            self.remaining(elapsed_ms) - 1
        }
    }

    /// The timeouts of a call to the inference service when `elapsed_ms` of
    /// the budget are used: the whole call has the request timeout, and
    /// connecting has half of it. There is no call to make when less than
    /// two milliseconds could be given to it.
    pub fn call_timeouts(&self, elapsed_ms: u64) -> (r: Option<CallTimeouts>)
        ensures
            r is Some <==> self.request_timeout(elapsed_ms) >= 2,
            r matches Some(timeouts) ==> {
                &&& timeouts.request_ms as int == self.request_timeout(elapsed_ms)
                &&& timeouts.connect_ms == timeouts.request_ms / 2
                &&& 0 < timeouts.connect_ms < timeouts.request_ms
                &&& timeouts.request_ms < self.remaining(elapsed_ms)
                &&& timeouts.request_ms <= self.inference_budget()
            },
    {
        if elapsed_ms >= self.max_execution_latency_ms {
            return None;
        }
        let remaining = self.max_execution_latency_ms - elapsed_ms;
        let budget = self.inference_budget_ms();
        let request_ms = if budget < remaining {
            budget
        } else {
            remaining - 1
        };
        if request_ms < 2 {
            None
        } else {
            Some(CallTimeouts { connect_ms: request_ms / 2, request_ms })
        }
    }
}

impl Default for HFTConfig {
    /// A budget of 25 ms, bundles of up to 5, 3 retries and a confidence
    /// threshold of 0.7, with the local gateway and the main block engine.
    fn default() -> (r: Self)
        ensures
            r.tensorzero_gateway_url@ == "http://localhost:3000"@,
            r.jito_endpoint@ == "https://mainnet.block-engine.jito.wtf"@,
            r.max_execution_latency_ms == 25,
            r.max_bundle_size == 5,
            r.retry_attempts == 3,
            r.ai_confidence_threshold == 700_000,
            r.valid(),
    {
        HFTConfig {
            tensorzero_gateway_url: String::from_str("http://localhost:3000"),
            jito_endpoint: String::from_str("https://mainnet.block-engine.jito.wtf"),
            max_execution_latency_ms: 25,
            max_bundle_size: 5,
            retry_attempts: 3,
            ai_confidence_threshold: 700_000,
        }
    }
}

/// What the engine has done so far. The average latency is in millionths of
/// a millisecond.
#[derive(Debug, Clone, Copy, PartialEq, Eq, Structural)]
pub struct HFTMetrics {
    pub total_executions: u64,
    pub successful_executions: u64,
    pub failed_executions: u64,
    pub total_latency_ms: u64,
    pub avg_latency_ms: u128,
    pub ai_decisions_made: u64,
    pub bundles_submitted: u64,
}

impl HFTMetrics {
    /// Whether nothing has been counted yet.
    pub open spec fn is_fresh(&self) -> bool {
        *self == (HFTMetrics {
            total_executions: 0,
            successful_executions: 0,
            failed_executions: 0,
            total_latency_ms: 0,
            avg_latency_ms: 0,
            ai_decisions_made: 0,
            bundles_submitted: 0,
        })
    }

    /// The metrics after one more execution that took `latency_ms` and
    /// succeeded or not. Counters stop at the largest number; the average is
    /// the summed latency over the number of executions.
    pub open spec fn recorded(&self, latency_ms: u64, success: bool) -> HFTMetrics {
        let total = saturating_sum(self.total_executions, 1);
        let latency = saturating_sum(self.total_latency_ms, latency_ms);
        HFTMetrics {
            total_executions: total,
            successful_executions: if success {
                saturating_sum(self.successful_executions, 1)
            } else {
                self.successful_executions
            },
            failed_executions: if success {
                self.failed_executions
            } else {
                saturating_sum(self.failed_executions, 1)
            },
            total_latency_ms: latency,
            avg_latency_ms: ((latency * SCALE) / (total as int)) as u128,
            ai_decisions_made: self.ai_decisions_made,
            bundles_submitted: self.bundles_submitted,
        }
    }
}

impl Default for HFTMetrics {
    fn default() -> (r: Self)
        ensures
            r.is_fresh(),
    {
        HFTMetrics {
            total_executions: 0,
            successful_executions: 0,
            failed_executions: 0,
            total_latency_ms: 0,
            avg_latency_ms: 0,
            ai_decisions_made: 0,
            bundles_submitted: 0,
        }
    }
}

/// The action that the inference service recommends. Amounts are in the
/// token's smallest unit; the slippage tolerance is a fraction in
/// millionths.
#[derive(Debug)]
pub struct TradingAction {
    pub action_type: String,
    pub token_in: String,
    pub token_out: String,
    pub amount_in: u64,
    pub min_amount_out: u64,
    pub slippage_tolerance: u64,
    pub priority_fee: u64,
}

/// A decision of the inference service. Confidence and estimated profit are
/// in millionths.
#[derive(Debug)]
pub struct AITradingSignal {
    pub signal_id: String,
    pub signal_type: String,
    pub confidence: u64,
    pub action: TradingAction,
    pub estimated_profit: i64,
    pub time_window_ms: u64,
    pub ai_reasoning: String,
}

/// One message of a request to the inference service.
#[derive(Debug)]
pub struct TensorZeroMessage {
    pub role: String,
    pub content: String,
}

/// The input of a request to the inference service.
#[derive(Debug)]
pub struct TensorZeroInput {
    pub messages: Vec<TensorZeroMessage>,
}

/// A request to the inference service.
#[derive(Debug)]
pub struct TensorZeroRequest {
    pub model_name: String,
    pub input: TensorZeroInput,
    pub stream: bool,
    pub tags: Vec<(String, String)>,
}

/// One block of content in an answer of the inference service.
#[derive(Debug)]
pub struct TensorZeroContent {
    pub content_type: String,
    pub text: String,
}

/// The token counts of an answer of the inference service.
#[derive(Debug, Clone, Copy, PartialEq, Eq, Structural)]
pub struct TensorZeroUsage {
    pub input_tokens: u32,
    pub output_tokens: u32,
}

/// An answer of the inference service.
#[derive(Debug)]
pub struct TensorZeroResponse {
    pub inference_id: String,
    pub episode_id: String,
    pub variant_name: String,
    pub content: Vec<TensorZeroContent>,
    pub usage: Option<TensorZeroUsage>,
}

/// A bundle that the block engine accepted.
#[derive(Debug)]
pub struct JitoBundleResult {
    pub bundle_id: String,
    pub transaction_count: usize,
}

/// The phases of an execution that have a budget of their own.
#[derive(Debug, Clone, Copy, PartialEq, Eq, Structural)]
pub enum Phase {
    Inference,
    Submission,
}

/// Why the engine could not execute.
#[derive(Debug, Clone, Copy, PartialEq, Eq, Structural)]
pub enum HFTError {
    /// The configuration is not valid.
    InvalidConfig,
    /// The inference call did not answer in time.
    InferenceTimeout,
    /// The inference service could not be reached, or answered with an
    /// error status.
    InferenceUnavailable,
    /// The answer of the inference service is not a decision.
    InferenceMalformed,
    /// A phase took longer than its budget.
    BudgetExceeded(Phase),
    /// The block engine answered with this status, which is not a success.
    SubmissionRejected { status: u16 },
    /// The block engine could not be reached.
    SubmissionUnavailable,
}

/// What the engine made of one signal.
#[derive(Debug)]
pub enum ExecutionResult {
    Executed {
        signal_id: String,
        bundle_id: String,
        latency_ms: u64,
        estimated_profit: i64,
        ai_confidence: u64,
    },
    Skipped { reason: String, latency_ms: u64 },
    Failed { error: String, latency_ms: u64 },
}

/// How the inference call ended.
#[derive(Debug)]
pub enum InferenceEvent {
    /// The service answered with this decision.
    Decided(AITradingSignal),
    /// The call did not end within its budget.
    TimedOut,
    /// The service could not be reached or answered with an error status.
    Unavailable,
    /// The answer could not be read as a decision.
    Malformed,
}

/// How one attempt to send the bundle ended.
#[derive(Debug)]
pub enum SubmissionEvent {
    /// The block engine accepted the bundle under this identifier.
    Accepted { bundle_id: String },
    /// The block engine answered with this status, which is not a success.
    Rejected { status: u16 },
    /// The block engine could not be reached.
    NetworkError,
    /// The attempt did not end within the budget.
    TimedOut,
}

/// What the engine does after the inference call.
#[derive(Debug)]
pub enum AfterInference {
    /// Build and send the bundle for this decision.
    Submit(AITradingSignal),
    /// The execution is over.
    Done(Result<ExecutionResult, HFTError>),
}

/// What the engine does after an attempt to send the bundle.
#[derive(Debug)]
pub enum AfterSubmission {
    /// Sign afresh and send once more.
    Retry,
    /// The execution is over.
    Done(Result<ExecutionResult, HFTError>),
}

/// Whether a status of the block engine may pass: too many requests, or an
/// error of the server.
pub open spec fn is_transient_status(status: u16) -> bool {
    status == 429 || 500 <= status <= 599
}

/// Whether a status is a success.
pub open spec fn is_success_status(status: u16) -> bool {
    200 <= status <= 299
}

/// The engine: its configuration and what it has done so far.
#[derive(Debug)]
pub struct OvermindHFTEngine {
    pub metrics: HFTMetrics,
    pub config: HFTConfig,
}

/// The name of the model that the engine asks.
pub open spec fn model_name() -> Seq<char> {
    "openai::gpt-4o-mini"@
}

/// The instruction that opens every request.
pub open spec fn system_prompt() -> Seq<char> {
    "You are THE OVERMIND PROTOCOL AI Brain. Analyze market data and provide ultra-fast trading decisions. Respond with JSON containing: signal_type, confidence (0-1), action_type, reasoning."@
}

impl OvermindHFTEngine {
    /// An engine with the configuration `config` that has done nothing yet,
    /// or the error that the configuration is not valid.
    pub fn new(config: HFTConfig) -> (r: Result<Self, HFTError>)
        ensures
            r is Ok <==> config.valid(),
            r matches Err(e) ==> e == HFTError::InvalidConfig,
            r matches Ok(engine) ==> engine.config == config && engine.metrics.is_fresh(),
    {
        if config.ai_confidence_threshold <= SCALE && config.max_bundle_size >= 1 {
            Ok(OvermindHFTEngine { metrics: HFTMetrics::default(), config })
        } else {
            Err(HFTError::InvalidConfig)
        }
    }

    /// What the engine has done so far.
    pub fn get_metrics(&self) -> (r: &HFTMetrics)
        ensures
            *r == self.metrics,
    {
        &self.metrics
    }

    /// Counts one more execution that took `latency_ms` and succeeded or not.
    pub fn update_metrics(&mut self, latency_ms: u64, success: bool)
        ensures
            final(self).config == old(self).config,
            final(self).metrics == old(self).metrics.recorded(latency_ms, success),
    {
        let total = saturating_add(self.metrics.total_executions, 1);
        let latency = saturating_add(self.metrics.total_latency_ms, latency_ms);
        self.metrics.total_executions = total;
        if success {
            self.metrics.successful_executions = saturating_add(
                self.metrics.successful_executions,
                1,
            );
        } else {
            self.metrics.failed_executions = saturating_add(self.metrics.failed_executions, 1);
        }
        self.metrics.total_latency_ms = latency;
        proof {
            crate::fixed::lemma_product_fits(latency, SCALE);
        }
        self.metrics.avg_latency_ms = (latency as u128) * (SCALE as u128) / (total as u128);
    }

    /// The request that asks the inference service about `market_data`: to
    /// the fast model, with the engine's instruction and then the market
    /// data as the user's message, not streamed, tagged as latency critical.
    pub fn build_request(&self, market_data: &str) -> (r: TensorZeroRequest)
        ensures
            r.model_name@ == model_name(),
            !r.stream,
            r.input.messages.len() == 2,
            r.input.messages[0].role@ == "system"@,
            r.input.messages[0].content@ == system_prompt(),
            r.input.messages[1].role@ == "user"@,
            r.input.messages[1].content@ == "Market data: "@ + market_data@,
            r.tags.len() == 2,
            r.tags[0].0@ == "strategy"@ && r.tags[0].1@ == "overmind_hft"@,
            r.tags[1].0@ == "latency_critical"@ && r.tags[1].1@ == "true"@,
    {
        let mut messages: Vec<TensorZeroMessage> = Vec::new();
        messages.push(
            TensorZeroMessage {
                role: String::from_str("system"),
                content: String::from_str(
                    "You are THE OVERMIND PROTOCOL AI Brain. Analyze market data and provide ultra-fast trading decisions. Respond with JSON containing: signal_type, confidence (0-1), action_type, reasoning.",
                ),
            },
        );
        messages.push(
            TensorZeroMessage {
                role: String::from_str("user"),
                content: String::from_str("Market data: ").concat(market_data),
            },
        );
        let mut tags: Vec<(String, String)> = Vec::new();
        tags.push((String::from_str("strategy"), String::from_str("overmind_hft")));
        tags.push((String::from_str("latency_critical"), String::from_str("true")));
        TensorZeroRequest {
            model_name: String::from_str("openai::gpt-4o-mini"),
            input: TensorZeroInput { messages },
            stream: false,
            tags,
        }
    }

    /// What the engine does after the inference call ended with `event`,
    /// `elapsed_ms` after the execution began. A decision is counted. Then,
    /// in this order: a call that overran a third of the budget, or timed
    /// out, ends the execution with an error; so does a service that could
    /// not be reached or whose answer was malformed; a decision with a
    /// confidence below the threshold is skipped; any other decision goes on
    /// to submission.
    pub fn after_inference(&mut self, event: InferenceEvent, elapsed_ms: u64) -> (r: AfterInference)
        ensures
            final(self).config == old(self).config,
            final(self).metrics == (HFTMetrics {
                ai_decisions_made: if event is Decided {
                    saturating_sum(old(self).metrics.ai_decisions_made, 1)
                } else {
                    old(self).metrics.ai_decisions_made
                },
                ..old(self).metrics
            }),
            match event {
                InferenceEvent::TimedOut => r matches AfterInference::Done(Err(e)) && e
                    == HFTError::InferenceTimeout,
                InferenceEvent::Unavailable => r matches AfterInference::Done(Err(e)) && e
                    == HFTError::InferenceUnavailable,
                InferenceEvent::Malformed => r matches AfterInference::Done(Err(e)) && e
                    == HFTError::InferenceMalformed,
                InferenceEvent::Decided(signal) => if elapsed_ms
                    > old(self).config.inference_budget() {
                    r matches AfterInference::Done(Err(e)) && e == HFTError::BudgetExceeded(
                        Phase::Inference,
                    )
                } else if signal.confidence < old(self).config.ai_confidence_threshold {
                    r matches AfterInference::Done(
                        Ok(ExecutionResult::Skipped { reason, latency_ms }),
                    ) && reason@ == "Low AI confidence"@ && latency_ms == elapsed_ms
                } else {
                    r matches AfterInference::Submit(s) && s == signal
                },
            },
    {
        match event {
            InferenceEvent::TimedOut => AfterInference::Done(Err(HFTError::InferenceTimeout)),
            InferenceEvent::Unavailable => AfterInference::Done(
                Err(HFTError::InferenceUnavailable),
            ),
            InferenceEvent::Malformed => AfterInference::Done(Err(HFTError::InferenceMalformed)),
            InferenceEvent::Decided(signal) => {
                self.metrics.ai_decisions_made = saturating_add(
                    self.metrics.ai_decisions_made,
                    1,
                );
                if elapsed_ms > self.config.inference_budget_ms() {
                    AfterInference::Done(Err(HFTError::BudgetExceeded(Phase::Inference)))
                } else if signal.confidence < self.config.ai_confidence_threshold {
                    AfterInference::Done(
                        Ok(
                            ExecutionResult::Skipped {
                                reason: String::from_str("Low AI confidence"),
                                latency_ms: elapsed_ms,
                            },
                        ),
                    )
                } else {
                    AfterInference::Submit(signal)
                }
            },
        }
    }

    /// Whether a failed attempt is tried once more: only the first attempt,
    /// only for a failure that may pass, and only within the whole budget.
    pub open spec fn retries(&self, event: SubmissionEvent, attempt: u32, elapsed_ms: u64) -> bool {
        &&& attempt == 0
        &&& elapsed_ms < self.config.max_execution_latency_ms
        &&& match event {
            SubmissionEvent::Rejected { status } => is_transient_status(status),
            SubmissionEvent::NetworkError => true,
            _ => false,
        }
    }

    /// What the engine does after attempt number `attempt` (from zero) to
    /// send the bundle for `signal` ended with `event`, `elapsed_ms` after the
    /// execution began. An accepted bundle is counted and ends the execution
    /// as executed. A failure that may pass is retried once if the budget is
    /// not used up. Any other failure ends the execution with its error and
    /// is counted as failed.
    pub fn after_submission(
        &mut self,
        signal: &AITradingSignal,
        event: SubmissionEvent,
        attempt: u32,
        elapsed_ms: u64,
    ) -> (r: AfterSubmission)
        ensures
            final(self).config == old(self).config,
            match event {
                SubmissionEvent::Accepted { bundle_id } => {
                    &&& r matches AfterSubmission::Done(
                        Ok(
                            ExecutionResult::Executed {
                                signal_id,
                                bundle_id: sent,
                                latency_ms,
                                estimated_profit,
                                ai_confidence,
                            },
                        ),
                    )
                    &&& signal_id@ == signal.signal_id@
                    &&& sent == bundle_id
                    &&& latency_ms == elapsed_ms
                    &&& estimated_profit == signal.estimated_profit
                    &&& ai_confidence == signal.confidence
                    &&& final(self).metrics == (HFTMetrics {
                        bundles_submitted: saturating_sum(old(self).metrics.bundles_submitted, 1),
                        ..old(self).metrics
                    }).recorded(elapsed_ms, true)
                },
                _ => if old(self).retries(event, attempt, elapsed_ms) {
                    r is Retry && final(self).metrics == old(self).metrics
                } else {
                    &&& r matches AfterSubmission::Done(Err(e))
                    &&& e == match event {
                        SubmissionEvent::Rejected { status } => HFTError::SubmissionRejected {
                            status,
                        },
                        SubmissionEvent::NetworkError => HFTError::SubmissionUnavailable,
                        _ => HFTError::BudgetExceeded(Phase::Submission),
                    }
                    &&& final(self).metrics == old(self).metrics.recorded(elapsed_ms, false)
                },
            },
    {
        let within = attempt == 0 && elapsed_ms < self.config.max_execution_latency_ms;
        match event {
            SubmissionEvent::Accepted { bundle_id } => {
                self.metrics.bundles_submitted = saturating_add(
                    self.metrics.bundles_submitted,
                    1,
                );
                self.update_metrics(elapsed_ms, true);
                AfterSubmission::Done(
                    Ok(
                        ExecutionResult::Executed {
                            signal_id: signal.signal_id.clone(),
                            bundle_id,
                            latency_ms: elapsed_ms,
                            estimated_profit: signal.estimated_profit,
                            ai_confidence: signal.confidence,
                        },
                    ),
                )
            },
            SubmissionEvent::Rejected { status } => {
                if within && (status == 429 || (500 <= status && status <= 599)) {
                    AfterSubmission::Retry
                } else {
                    self.update_metrics(elapsed_ms, false);
                    AfterSubmission::Done(Err(HFTError::SubmissionRejected { status }))
                }
            },
            SubmissionEvent::NetworkError => {
                if within {
                    AfterSubmission::Retry
                } else {
                    self.update_metrics(elapsed_ms, false);
                    AfterSubmission::Done(Err(HFTError::SubmissionUnavailable))
                }
            },
            SubmissionEvent::TimedOut => {
                self.update_metrics(elapsed_ms, false);
                AfterSubmission::Done(Err(HFTError::BudgetExceeded(Phase::Submission)))
            },
        }
    }
}

/// The text that says which phase overran its budget.
pub fn budget_error_text(phase: Phase) -> (r: String)
    ensures
        r@ == match phase {
            Phase::Inference => "budget exceeded at phase inference"@,
            Phase::Submission => "budget exceeded at phase submission"@,
        },
{
    match phase {
        Phase::Inference => String::from_str("budget exceeded at phase inference"),
        Phase::Submission => String::from_str("budget exceeded at phase submission"),
    }
}

/// Whether, after this error, a trade is made without the inference engine:
/// after any error of the inference call itself. Any other error fails the
/// trade.
pub open spec fn falls_back(error: HFTError) -> bool {
    error == HFTError::InferenceTimeout || error == HFTError::InferenceUnavailable || error
        == HFTError::InferenceMalformed || error == HFTError::InvalidConfig
}

/// What an error says of itself; a rejection says the status that came back.
pub open spec fn error_message(error: HFTError) -> Seq<char> {
    match error {
        HFTError::InvalidConfig => "invalid configuration"@,
        HFTError::InferenceTimeout => "inference timed out"@,
        HFTError::InferenceUnavailable => "inference unavailable"@,
        HFTError::InferenceMalformed => "inference malformed"@,
        HFTError::BudgetExceeded(Phase::Inference) => "budget exceeded at phase inference"@,
        HFTError::BudgetExceeded(Phase::Submission) => "budget exceeded at phase submission"@,
        HFTError::SubmissionRejected { status } => "bundle submission rejected with status "@
            + crate::text::decimal_text(status as nat),
        HFTError::SubmissionUnavailable => "bundle submission failed"@,
    }
}

/// What the error `error` says of itself.
pub fn error_text(error: HFTError) -> (r: String)
    ensures
        r@ == error_message(error),
{
    match error {
        HFTError::InvalidConfig => String::from_str("invalid configuration"),
        HFTError::InferenceTimeout => String::from_str("inference timed out"),
        HFTError::InferenceUnavailable => String::from_str("inference unavailable"),
        HFTError::InferenceMalformed => String::from_str("inference malformed"),
        HFTError::BudgetExceeded(phase) => budget_error_text(phase),
        HFTError::SubmissionRejected { status } => {
            let mut text = String::from_str("bundle submission rejected with status ");
            crate::text::push_number(&mut text, status as u64);
            text
        },
        HFTError::SubmissionUnavailable => String::from_str("bundle submission failed"),
    }
}

/// Whether, after the error `error`, a trade is made without the inference
/// engine.
pub fn is_fallback(error: HFTError) -> (r: bool)
    ensures
        r == falls_back(error),
{
    match error {
        HFTError::InferenceTimeout => true,
        HFTError::InferenceUnavailable => true,
        HFTError::InferenceMalformed => true,
        HFTError::InvalidConfig => true,
        _ => false,
    }
}

/// How a status of the block engine is taken: a success passes; any other
/// status is a rejection that keeps the status.
pub fn classify_status(status: u16) -> (r: Result<(), HFTError>)
    ensures
        is_success_status(status) ==> r is Ok,
        !is_success_status(status) ==> r == Err::<(), HFTError>(
            HFTError::SubmissionRejected { status },
        ),
{
    if 200 <= status && status <= 299 {
        Ok(())
    } else {
        Err(HFTError::SubmissionRejected { status })
    }
}

/// The address of the inference endpoint under the gateway `gateway_url`.
pub fn inference_url(gateway_url: &str) -> (r: String)
    ensures
        r@ == gateway_url@ + "/inference"@,
{
    String::from_str(gateway_url).concat("/inference")
}

/// The position of the first block of `content` whose type is `text`.
pub open spec fn first_text_block(content: Seq<TensorZeroContent>) -> Option<int>
    decreases content.len(),
{
    if content.len() == 0 {
        None
    } else if content[0].content_type@ == "text"@ {
        Some(0)
    } else {
        match first_text_block(content.drop_first()) {
            Some(i) => Some(i + 1),
            None => None,
        }
    }
}

/// The first text block is a text block and no block before it is.
pub proof fn lemma_first_text_block(content: Seq<TensorZeroContent>)
    ensures
        match first_text_block(content) {
            Some(i) => {
                &&& 0 <= i < content.len()
                &&& content[i].content_type@ == "text"@
                &&& forall|j: int| 0 <= j < i ==> content[j].content_type@ != "text"@
            },
            None => forall|j: int| 0 <= j < content.len() ==> content[j].content_type@ != "text"@,
        },
    decreases content.len(),
{
    if content.len() > 0 && content[0].content_type@ != "text"@ {
        lemma_first_text_block(content.drop_first());
        let rest = content.drop_first();
        match first_text_block(rest) {
            Some(i) => {
                assert forall|j: int| 0 <= j < i + 1 implies content[j].content_type@
                    != "text"@ by {
                    if j > 0 {
                        assert(rest[j - 1] == content[j]);
                    }
                }
                assert(rest[i] == content[i + 1]);
            },
            None => {
                assert forall|j: int| 0 <= j < content.len() implies content[j].content_type@
                    != "text"@ by {
                    if j > 0 {
                        assert(rest[j - 1] == content[j]);
                    }
                }
            },
        }
    }
}

/// The first block of `response` whose type is `text`, by its position.
pub fn find_text_block(response: &TensorZeroResponse) -> (r: Option<usize>)
    ensures
        match r {
            Some(i) => first_text_block(response.content@) == Some(i as int),
            None => first_text_block(response.content@) is None,
        },
{
    let mut i: usize = 0;
    while i < response.content.len()
        invariant
            i <= response.content.len(),
            forall|j: int| 0 <= j < i ==> response.content@[j].content_type@ != "text"@,
        decreases response.content.len() - i,
    {
        if same_text(response.content[i].content_type.as_str(), "text") {
            proof {
                lemma_first_text_block(response.content@);
            }
            return Some(i);
        }
        i += 1;
    }
    proof {
        lemma_first_text_block(response.content@);
    }
    None
}

/// The fields of a decision as they stand in the answer's text, before they
/// are checked: each is the member's text, or none where the member is
/// missing or of another type. Numbers are in decimal notation.
pub struct DecisionFields {
    pub signal_type: Option<String>,
    pub confidence: Option<String>,
    pub action_type: Option<String>,
    pub token_in: Option<String>,
    pub token_out: Option<String>,
    pub amount_in: Option<String>,
    pub min_amount_out: Option<String>,
    pub slippage_tolerance: Option<String>,
    pub priority_fee: Option<String>,
    pub estimated_profit: Option<String>,
    pub time_window_ms: Option<String>,
    pub reasoning: Option<String>,
}

/// The texts of the fields of a decision.
pub struct FieldTexts {
    pub signal_type: Option<Seq<char>>,
    pub confidence: Option<Seq<char>>,
    pub action_type: Option<Seq<char>>,
    pub token_in: Option<Seq<char>>,
    pub token_out: Option<Seq<char>>,
    pub amount_in: Option<Seq<char>>,
    pub min_amount_out: Option<Seq<char>>,
    pub slippage_tolerance: Option<Seq<char>>,
    pub priority_fee: Option<Seq<char>>,
    pub estimated_profit: Option<Seq<char>>,
    pub time_window_ms: Option<Seq<char>>,
    pub reasoning: Option<Seq<char>>,
}

impl View for DecisionFields {
    type V = FieldTexts;

    open spec fn view(&self) -> FieldTexts {
        FieldTexts {
            signal_type: text_of(self.signal_type),
            confidence: text_of(self.confidence),
            action_type: text_of(self.action_type),
            token_in: text_of(self.token_in),
            token_out: text_of(self.token_out),
            amount_in: text_of(self.amount_in),
            min_amount_out: text_of(self.min_amount_out),
            slippage_tolerance: text_of(self.slippage_tolerance),
            priority_fee: text_of(self.priority_fee),
            estimated_profit: text_of(self.estimated_profit),
            time_window_ms: text_of(self.time_window_ms),
            reasoning: text_of(self.reasoning),
        }
    }
}

/// Whether `field` holds an unsigned integer that fits in 64 bits.
pub open spec fn holds_count(field: Option<Seq<char>>) -> bool {
    field matches Some(text) && is_unsigned(text) && digits_value(without_plus(text)) <= u64::MAX
}

/// Whether `field` holds a decimal number of at most `limit` millionths.
pub open spec fn holds_fraction(field: Option<Seq<char>>, limit: int) -> bool {
    field matches Some(text) && is_decimal(text) && decimal_value(text) <= limit
}

/// Whether `field` holds a signed decimal number whose magnitude fits in 63
/// bits.
pub open spec fn holds_amount(field: Option<Seq<char>>) -> bool {
    field matches Some(text) && is_signed_decimal(text) && decimal_value(unsigned_part(text))
        <= i64::MAX
}

impl FieldTexts {
    /// The fields make a decision when none is missing, the counts are
    /// unsigned integers, the estimated profit is a decimal number, and the
    /// confidence and the slippage tolerance are decimal numbers of at most
    /// one.
    pub open spec fn complete(&self) -> bool {
        &&& self.signal_type is Some
        &&& self.action_type is Some
        &&& self.token_in is Some
        &&& self.token_out is Some
        &&& self.reasoning is Some
        &&& holds_fraction(self.confidence, SCALE as int)
        &&& holds_fraction(self.slippage_tolerance, SCALE as int)
        &&& holds_count(self.amount_in)
        &&& holds_count(self.min_amount_out)
        &&& holds_count(self.priority_fee)
        &&& holds_count(self.time_window_ms)
        &&& holds_amount(self.estimated_profit)
    }

    /// Whether `signal` is the decision that the fields make.
    pub open spec fn makes(&self, signal: AITradingSignal) -> bool {
        &&& Some(signal.signal_type@) == self.signal_type
        &&& Some(signal.action.action_type@) == self.action_type
        &&& Some(signal.action.token_in@) == self.token_in
        &&& Some(signal.action.token_out@) == self.token_out
        &&& Some(signal.ai_reasoning@) == self.reasoning
        &&& signal.confidence as int == decimal_value(self.confidence->0)
        &&& signal.confidence <= SCALE
        &&& signal.action.slippage_tolerance as int == decimal_value(self.slippage_tolerance->0)
        &&& signal.action.amount_in as int == digits_value(without_plus(self.amount_in->0))
        &&& signal.action.min_amount_out as int == digits_value(
            without_plus(self.min_amount_out->0),
        )
        &&& signal.action.priority_fee as int == digits_value(without_plus(self.priority_fee->0))
        &&& signal.time_window_ms as int == digits_value(without_plus(self.time_window_ms->0))
        &&& signal.estimated_profit as int == signed_decimal_value(self.estimated_profit->0)
    }
}

/// The count that a field holds, if it holds one.
pub fn read_count(field: &Option<String>) -> (r: Option<u64>)
    ensures
        r is Some <==> holds_count(text_of(*field)),
        r matches Some(n) ==> n as int == digits_value(without_plus(field->0@)),
{
    match field {
        Some(text) => parse_u64(text.as_str()),
        None => None,
    }
}

/// The fraction of at most `limit` that a field holds, if it holds one.
pub fn read_fraction(field: &Option<String>, limit: u64) -> (r: Option<u64>)
    ensures
        r is Some <==> holds_fraction(text_of(*field), limit as int),
        r matches Some(n) ==> n as int == decimal_value(field->0@) && n <= limit,
{
    match field {
        Some(text) => match parse_decimal(text.as_str()) {
            Some(n) => if n <= limit {
                Some(n)
            } else {
                None
            },
            None => None,
        },
        None => None,
    }
}

/// The signed amount that a field holds, if it holds one.
pub fn read_amount(field: &Option<String>) -> (r: Option<i64>)
    ensures
        r is Some <==> holds_amount(text_of(*field)),
        r matches Some(n) ==> n as int == signed_decimal_value(field->0@),
{
    match field {
        Some(text) => parse_signed_decimal(text.as_str()),
        None => None,
    }
}

/// The decision that the fields make, under the identifier `signal_id`; or
/// the error that the answer is malformed, when they make none.
pub fn decision_from_fields(fields: DecisionFields, signal_id: String) -> (r: Result<
    AITradingSignal,
    HFTError,
>)
    ensures
        r is Ok <==> fields@.complete(),
        r matches Err(e) ==> e == HFTError::InferenceMalformed,
        r matches Ok(signal) ==> signal.signal_id == signal_id && fields@.makes(signal),
{
    let confidence = read_fraction(&fields.confidence, SCALE);
    let slippage_tolerance = read_fraction(&fields.slippage_tolerance, SCALE);
    let amount_in = read_count(&fields.amount_in);
    let min_amount_out = read_count(&fields.min_amount_out);
    let priority_fee = read_count(&fields.priority_fee);
    let time_window_ms = read_count(&fields.time_window_ms);
    let estimated_profit = read_amount(&fields.estimated_profit);
    match (
        fields.signal_type,
        fields.action_type,
        fields.token_in,
        fields.token_out,
        fields.reasoning,
    ) {
        (Some(signal_type), Some(action_type), Some(token_in), Some(token_out), Some(reasoning)) => {
            match (
                confidence,
                slippage_tolerance,
                amount_in,
                min_amount_out,
                priority_fee,
                time_window_ms,
                estimated_profit,
            ) {
                (Some(c), Some(s), Some(a), Some(m), Some(p), Some(t), Some(e)) => Ok(
                    AITradingSignal {
                        signal_id,
                        signal_type,
                        confidence: c,
                        action: TradingAction {
                            action_type,
                            token_in,
                            token_out,
                            amount_in: a,
                            min_amount_out: m,
                            slippage_tolerance: s,
                            priority_fee: p,
                        },
                        estimated_profit: e,
                        time_window_ms: t,
                        ai_reasoning: reasoning,
                    },
                ),
                _ => Err(HFTError::InferenceMalformed),
            }
        },
        _ => Err(HFTError::InferenceMalformed),
    }
}

/// A JSON value of `serde_json`.
#[verifier::external_type_specification]
#[verifier::external_body]
pub struct ExJsonValue(serde_json::Value);

/// The members of a JSON object that are strings, each with its text. A
/// value that is no object has none.
pub uninterp spec fn json_texts(value: serde_json::Value) -> Map<Seq<char>, Seq<char>>;

/// The members of a JSON object that are numbers, each with the decimal
/// notation in which `serde_json` prints it. A value that is no object has
/// none.
pub uninterp spec fn json_numbers(value: serde_json::Value) -> Map<Seq<char>, Seq<char>>;

/// What `serde_json` reads from a text, as far as the engine looks at it:
/// nothing where the text is not JSON; else the members of the value that
/// are strings and those that are numbers.
pub uninterp spec fn json_document(text: Seq<char>) -> Option<
    (Map<Seq<char>, Seq<char>>, Map<Seq<char>, Seq<char>>),
>;

/// What a map holds under a key, if it holds anything.
pub open spec fn lookup(members: Map<Seq<char>, Seq<char>>, key: Seq<char>) -> Option<Seq<char>> {
    if members.contains_key(key) {
        Some(members[key])
    } else {
        None
    }
}

/// `serde_json::from_str` at `serde_json::Value`: the JSON value that `text`
/// spells, or none where `text` is not JSON. The value depends on the text
/// alone.
#[verifier::external_body]
pub(crate) fn parse_json(text: &str) -> (r: Option<serde_json::Value>)
    ensures
        match r {
            Some(value) => json_document(text@) == Some((json_texts(value), json_numbers(value))),
            None => json_document(text@) is None,
        },
{
    serde_json::from_str::<serde_json::Value>(text).ok()
}

/// `serde_json::Value::get` followed by `as_str`: the text of the member
/// `key` of `value` where `value` is an object and the member is a string.
#[verifier::external_body]
pub(crate) fn json_text(value: &serde_json::Value, key: &str) -> (r: Option<String>)
    ensures
        text_of(r) == lookup(json_texts(*value), key@),
{
    value.get(key).and_then(|member| member.as_str()).map(|text| text.to_string())
}

/// `serde_json::Value::get` followed by `as_number` and the number's
/// `to_string`: the decimal notation of the member `key` of `value` where
/// `value` is an object and the member is a number.
#[verifier::external_body]
pub(crate) fn json_number(value: &serde_json::Value, key: &str) -> (r: Option<String>)
    ensures
        text_of(r) == lookup(json_numbers(*value), key@),
{
    value.get(key).and_then(|member| member.as_number()).map(|number| number.to_string())
}

/// The fields of a decision among the members of a JSON object: the
/// strings `signal_type`, `action_type`, `token_in`, `token_out` and
/// `reasoning`, and the numbers `confidence`, `slippage_tolerance`,
/// `amount_in`, `min_amount_out`, `priority_fee`, `estimated_profit` and
/// `time_window_ms`.
pub open spec fn decision_members(
    texts: Map<Seq<char>, Seq<char>>,
    numbers: Map<Seq<char>, Seq<char>>,
) -> FieldTexts {
    FieldTexts {
        signal_type: lookup(texts, "signal_type"@),
        confidence: lookup(numbers, "confidence"@),
        action_type: lookup(texts, "action_type"@),
        token_in: lookup(texts, "token_in"@),
        token_out: lookup(texts, "token_out"@),
        amount_in: lookup(numbers, "amount_in"@),
        min_amount_out: lookup(numbers, "min_amount_out"@),
        slippage_tolerance: lookup(numbers, "slippage_tolerance"@),
        priority_fee: lookup(numbers, "priority_fee"@),
        estimated_profit: lookup(numbers, "estimated_profit"@),
        time_window_ms: lookup(numbers, "time_window_ms"@),
        reasoning: lookup(texts, "reasoning"@),
    }
}

/// The fields of a decision as the JSON value `value` holds them.
pub fn fields_of(value: &serde_json::Value) -> (r: DecisionFields)
    ensures
        r@ == decision_members(json_texts(*value), json_numbers(*value)),
{
    DecisionFields {
        signal_type: json_text(value, "signal_type"),
        confidence: json_number(value, "confidence"),
        action_type: json_text(value, "action_type"),
        token_in: json_text(value, "token_in"),
        token_out: json_text(value, "token_out"),
        amount_in: json_number(value, "amount_in"),
        min_amount_out: json_number(value, "min_amount_out"),
        slippage_tolerance: json_number(value, "slippage_tolerance"),
        priority_fee: json_number(value, "priority_fee"),
        estimated_profit: json_number(value, "estimated_profit"),
        time_window_ms: json_number(value, "time_window_ms"),
        reasoning: json_text(value, "reasoning"),
    }
}

/// The fields of a decision in an answer of the inference service, if the
/// answer has a first block of type `text` and its text is JSON.
pub open spec fn answer_fields(content: Seq<TensorZeroContent>) -> Option<FieldTexts> {
    match first_text_block(content) {
        None => None,
        Some(i) => match json_document(content[i].text@) {
            None => None,
            Some((texts, numbers)) => Some(decision_members(texts, numbers)),
        },
    }
}

impl OvermindHFTEngine {
    /// The decision in an answer of the inference service, under the
    /// identifier `signal_id`: the first block of type `text` is read as a
    /// JSON object, and its members as the fields of a decision. An answer
    /// without a text block, with a text that is not JSON, or with fields
    /// that make no decision, is malformed.
    pub fn parse_ai_response_as(&self, response: &TensorZeroResponse, signal_id: String) -> (r:
        Result<AITradingSignal, HFTError>)
        ensures
            r is Ok <==> (answer_fields(response.content@) matches Some(fields)
                && fields.complete()),
            r matches Err(e) ==> e == HFTError::InferenceMalformed,
            r matches Ok(signal) ==> signal.signal_id == signal_id && answer_fields(
                response.content@,
            )->0.makes(signal),
    {
        let block = match find_text_block(response) {
            Some(i) => i,
            None => {
                return Err(HFTError::InferenceMalformed);
            },
        };
        proof {
            lemma_first_text_block(response.content@);
        }
        let value = match parse_json(response.content[block].text.as_str()) {
            Some(v) => v,
            None => {
                return Err(HFTError::InferenceMalformed);
            },
        };
        decision_from_fields(fields_of(&value), signal_id)
    }

    /// The decision in an answer of the inference service, under a fresh
    /// identifier.
    pub fn parse_ai_response(&self, response: &TensorZeroResponse) -> (r: Result<
        AITradingSignal,
        HFTError,
    >)
        ensures
            r is Ok <==> (answer_fields(response.content@) matches Some(fields)
                && fields.complete()),
            r matches Err(e) ==> e == HFTError::InferenceMalformed,
            r matches Ok(signal) ==> answer_fields(response.content@)->0.makes(signal)
                && signal.signal_id@.len() == 36,
    {
        self.parse_ai_response_as(response, new_uuid())
    }

    /// The identifier of the bundle in an acknowledgement of the block
    /// engine: the text of its member `result`, or `unknown` where it has
    /// none.
    pub fn bundle_id_of(&self, acknowledgement: &serde_json::Value) -> (r: String)
        ensures
            r@ == match lookup(json_texts(*acknowledgement), "result"@) {
                Some(id) => id,
                None => "unknown"@,
            },
    {
        match json_text(acknowledgement, "result") {
            Some(id) => id,
            None => String::from_str("unknown"),
        }
    }
}

} // verus!
