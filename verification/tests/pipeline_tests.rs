use snipercor::modules::data_ingestor::{DataSource, MarketData};
use snipercor::modules::executor::{ExecutionResult, ExecutionStatus};
use snipercor::modules::persistence::{PersistenceManager, PersistenceMessage};
use snipercor::modules::pipeline::{
    BoundedQueue, PipelineQueues, PipelineSupervisor, QueueCapacities, RestartRefused, Stage,
    StageStatus,
};
use snipercor::modules::strategy::{StrategyEngine, StrategyType, TradeAction, TradingSignal};
use snipercor::modules::strategy_runtime::{
    merge_signal, Observation, PendingSignal, Strategy, StrategyRuntime,
};

fn tick(price: u64) -> MarketData {
    MarketData {
        symbol: "SOL/USDC".to_string(),
        price,
        volume: 1,
        timestamp: price as i64,
        source: DataSource::QuickNode,
    }
}

fn signal(id: &str, at: i64) -> TradingSignal {
    TradingSignal {
        signal_id: id.to_string(),
        symbol: "SOL/USDC".to_string(),
        action: TradeAction::Buy,
        quantity: 1,
        target_price: 1,
        confidence: 1,
        timestamp: at,
        strategy_type: StrategyType::MomentumTrading,
    }
}

fn result(id: &str) -> ExecutionResult {
    ExecutionResult {
        signal_id: id.to_string(),
        transaction_id: "tx".to_string(),
        status: ExecutionStatus::Confirmed,
        executed_quantity: 1,
        executed_price: 1,
        fees: 0,
        timestamp: 0,
        error_message: None,
    }
}

fn queues(ticks: usize, signals: usize) -> PipelineQueues {
    PipelineQueues::new(QueueCapacities { ticks, signals, approved: 1, routed: 1, results: 1 })
}

#[test]
fn queue_is_first_in_first_out() {
    let mut queue: BoundedQueue<u32> = BoundedQueue::new(3);
    assert_eq!(queue.len(), 0);
    assert_eq!(queue.take(), None);
    for n in 1..=3 {
        assert_eq!(queue.offer(n), Ok(()));
    }
    assert!(queue.is_full());
    assert_eq!(queue.take(), Some(1));
    assert_eq!(queue.take(), Some(2));
    assert_eq!(queue.offer(4), Ok(()));
    assert_eq!(queue.take(), Some(3));
    assert_eq!(queue.take(), Some(4));
    assert_eq!(queue.take(), None);
}

#[test]
fn saturated_tick_queue_drops_the_oldest_and_never_waits() {
    let mut pipeline = queues(2, 1);
    for price in 1..=5 {
        pipeline.ingest_tick(tick(price));
    }
    assert_eq!(pipeline.ticks.dropped, 3);
    assert_eq!(pipeline.ticks.waits, 0);
    assert_eq!(pipeline.ticks.len(), 2);
    assert_eq!(pipeline.ticks.take().unwrap().price, 4);
    assert_eq!(pipeline.ticks.take().unwrap().price, 5);
    let mut queue: BoundedQueue<u8> = BoundedQueue::new(1);
    assert_eq!(queue.push_dropping_oldest(1), None);
    assert_eq!(queue.push_dropping_oldest(2), Some(1));
    assert_eq!(queue.dropped, 1);
}

#[test]
fn saturated_signal_queue_makes_the_strategy_wait_and_loses_nothing() {
    let mut pipeline = queues(1, 2);
    assert!(pipeline.offer_signal(signal("a", 1)).is_ok());
    assert!(pipeline.offer_signal(signal("b", 2)).is_ok());
    let refused = pipeline.offer_signal(signal("c", 3)).unwrap_err();
    assert_eq!(refused.signal_id, "c");
    let refused = pipeline.offer_signal(refused).unwrap_err();
    assert_eq!(pipeline.signals.waits, 2);
    assert_eq!(pipeline.signals.dropped, 0);
    assert_eq!(pipeline.signals.take().unwrap().signal_id, "a");
    assert!(pipeline.offer_signal(refused).is_ok());
    assert_eq!(pipeline.signals.take().unwrap().signal_id, "b");
    assert_eq!(pipeline.signals.take().unwrap().signal_id, "c");
    assert_eq!(pipeline.signals.dropped + pipeline.approved.dropped + pipeline.routed.dropped, 0);
}

#[test]
fn supervisor_shuts_down_downstream_first() {
    let mut supervisor = PipelineSupervisor::new(1000, 0);
    assert_eq!(supervisor.next_to_stop(), None);
    supervisor.stage_exited(Stage::Risk, false);
    assert!(supervisor.shutting_down);
    assert_eq!(supervisor.get(Stage::Risk).status, StageStatus::Stopped);
    let mut order = Vec::new();
    while let Some(stage) = supervisor.stop_next() {
        order.push(stage);
    }
    assert_eq!(
        order,
        vec![Stage::Executor, Stage::Router, Stage::Strategy, Stage::Ingest, Stage::Persistence]
    );
    assert_eq!(supervisor.next_to_stop(), None);
    let mut all = PipelineSupervisor::new(1000, 0);
    all.shutting_down = true;
    assert_eq!(all.stop_next(), Some(Stage::Executor));
    assert_eq!(all.stop_next(), Some(Stage::Router));
    assert_eq!(all.stop_next(), Some(Stage::Risk));
}

#[test]
fn supervisor_watches_the_heartbeats() {
    let mut supervisor = PipelineSupervisor::new(1000, 0);
    assert!(!supervisor.is_overdue(Stage::Executor, 1000));
    assert!(supervisor.is_overdue(Stage::Executor, 1001));
    supervisor.record_heartbeat(Stage::Executor, 900);
    assert!(!supervisor.is_overdue(Stage::Executor, 1900));
    assert!(supervisor.is_overdue(Stage::Router, 1900));
    supervisor.stage_exited(Stage::Router, false);
    // A stage that does not run misses no heartbeat.
    assert!(!supervisor.is_overdue(Stage::Router, 1_000_000));
}

#[test]
fn supervisor_never_restarts_a_stage_that_failed_fatally() {
    let mut supervisor = PipelineSupervisor::new(1000, 0);
    assert_eq!(supervisor.restart_stage(Stage::Ingest, 5), Err(RestartRefused::AlreadyRunning));
    supervisor.stage_exited(Stage::Ingest, true);
    assert_eq!(supervisor.get(Stage::Ingest).status, StageStatus::Failed);
    assert_eq!(supervisor.restart_stage(Stage::Ingest, 5), Err(RestartRefused::FatalExit));
    supervisor.shutting_down = false;
    assert_eq!(supervisor.restart_stage(Stage::Ingest, 5), Err(RestartRefused::FatalExit));
    // A second, harmless exit does not undo the fatal one.
    supervisor.stage_exited(Stage::Ingest, false);
    assert_eq!(supervisor.get(Stage::Ingest).status, StageStatus::Failed);
    supervisor.stage_exited(Stage::Strategy, false);
    assert_eq!(supervisor.restart_stage(Stage::Strategy, 5), Err(RestartRefused::ShuttingDown));
    supervisor.shutting_down = false;
    assert_eq!(supervisor.restart_stage(Stage::Strategy, 7), Ok(()));
    assert_eq!(supervisor.get(Stage::Strategy).status, StageStatus::Running);
    assert_eq!(supervisor.get(Stage::Strategy).last_heartbeat, 7);
}

#[test]
fn cooldown_spaces_the_signals_of_a_strategy() {
    let mut runtime = StrategyRuntime::new(1000, 3, 10);
    let fast = runtime.register(StrategyType::TokenSniping, 0);
    let slow = runtime.register(StrategyType::MomentumTrading, 1);
    assert_eq!((fast, slow), (0, 1));
    assert!(runtime.allow_emit(fast, 5000));
    assert!(!runtime.allow_emit(fast, 5999));
    assert!(runtime.allow_emit(slow, 5999));
    assert!(runtime.allow_emit(fast, 6000));
    assert!(!runtime.allow_emit(fast, 6500));
    // A refused signal does not restart the cooldown.
    assert!(runtime.allow_emit(fast, 7000));
    assert_eq!(runtime.slots[fast].last_emit, Some(7000));
}

#[test]
fn error_budget_quarantines_a_strategy() {
    let mut runtime = StrategyRuntime::new(0, 3, 10);
    let slot = runtime.register(StrategyType::Arbitrage, 0);
    let other = runtime.register(StrategyType::MomentumTrading, 0);
    assert!(!runtime.record_failure(slot));
    runtime.begin_tick();
    assert!(!runtime.record_failure(slot));
    // Ten ticks later the first failure no longer counts.
    for _ in 0..9 {
        runtime.begin_tick();
    }
    assert_eq!(runtime.tick, 10);
    assert!(!runtime.record_failure(slot));
    assert_eq!(runtime.slots[slot].failure_ticks, vec![1, 10]);
    assert!(runtime.receives_ticks(slot));
    runtime.begin_tick();
    // At tick 11 the failure of tick 1 no longer counts either.
    assert!(!runtime.record_failure(slot));
    assert_eq!(runtime.slots[slot].failure_ticks, vec![10, 11]);
    // The third failure within ten ticks uses up the budget.
    assert!(runtime.record_failure(slot));
    assert!(!runtime.receives_ticks(slot));
    assert!(!runtime.allow_emit(slot, 0));
    assert_eq!(runtime.quarantined_count, 1);
    // Quarantine is counted once, and the others run on.
    assert!(!runtime.record_failure(slot));
    assert_eq!(runtime.quarantined_count, 1);
    assert!(runtime.receives_ticks(other));
    assert!(runtime.allow_emit(other, 0));
}

#[test]
fn signals_merge_by_priority_then_time() {
    let mut pending: Vec<PendingSignal> = Vec::new();
    for (priority, id, at) in [(1, "b1", 10), (0, "a2", 20), (1, "b0", 5), (0, "a1", 10), (0, "a2x", 20), (2, "c", 0)] {
        merge_signal(&mut pending, PendingSignal { priority, signal: signal(id, at) });
    }
    let order: Vec<&str> = pending.iter().map(|p| p.signal.signal_id.as_str()).collect();
    // Equal signals keep the order in which they came.
    assert_eq!(order, vec!["a1", "a2", "a2x", "b0", "b1", "c"]);
}

#[test]
fn test_persistence_manager_creation() {
    let manager = PersistenceManager::new("postgresql://test".to_string());
    assert!(!manager.is_running);
}

#[test]
fn journal_keeps_the_order_of_the_results() {
    let mut manager = PersistenceManager::new("postgresql://test".to_string());
    manager.start();
    assert!(manager.is_running);
    manager.store_execution_result(result("a"));
    manager.handle_message(PersistenceMessage::HealthCheck);
    manager.handle_message(PersistenceMessage::ExecutionResult(result("b")));
    manager.store_execution_result(result("c"));
    assert_eq!(manager.health_checks, 1);
    let written: Vec<String> = manager.drain().into_iter().map(|r| r.signal_id).collect();
    assert_eq!(written, vec!["a".to_string(), "b".to_string(), "c".to_string()]);
    assert!(manager.journal.is_empty());
    assert!(manager.drain().is_empty());
    manager.stop();
    assert!(!manager.is_running);
    assert_eq!(manager.database_url, "postgresql://test");
}

#[test]
fn observations_are_taken_by_the_rules_of_the_runtime() {
    let mut runtime = StrategyRuntime::new(100, 2, 10);
    let low = runtime.register(StrategyType::MomentumTrading, 5);
    let high = runtime.register(StrategyType::TokenSniping, 1);
    let mut pending: Vec<PendingSignal> = Vec::new();
    assert!(!runtime.take_observation(&mut pending, low, Observation::Nothing));
    assert!(runtime.take_observation(&mut pending, low, Observation::Signal(signal("l1", 1000))));
    assert!(runtime.take_observation(&mut pending, high, Observation::Signal(signal("h1", 1001))));
    // Within the cooldown a signal is dropped.
    assert!(!runtime.take_observation(&mut pending, high, Observation::Signal(signal("h2", 1100))));
    assert!(runtime.take_observation(&mut pending, high, Observation::Signal(signal("h3", 1101))));
    let order: Vec<&str> = pending.iter().map(|p| p.signal.signal_id.as_str()).collect();
    assert_eq!(order, vec!["h1", "h3", "l1"]);
    // Two failures use up the budget; after that nothing is taken.
    assert!(!runtime.take_observation(&mut pending, low, Observation::Failed));
    assert!(runtime.receives_ticks(low));
    assert!(!runtime.take_observation(&mut pending, low, Observation::Failed));
    assert!(!runtime.receives_ticks(low));
    assert!(!runtime.take_observation(&mut pending, low, Observation::Signal(signal("l2", 9000))));
    assert!(!runtime.take_observation(&mut pending, low, Observation::Failed));
    assert_eq!(runtime.slots[low].failure_ticks.len(), 2);
    assert_eq!(runtime.quarantined_count, 1);
    assert_eq!(pending.len(), 3);
}

#[test]
fn runtime_hands_ticks_to_a_strategy_until_it_is_quarantined() {
    let mut engine = StrategyEngine::new();
    assert_eq!(engine.kind(), StrategyType::TokenSniping);
    let mut runtime = StrategyRuntime::new(0, 1, 10);
    let slot = runtime.register(engine.kind(), 0);
    let mut pending: Vec<PendingSignal> = Vec::new();
    let busy = MarketData {
        symbol: "SOL/USDC".to_string(),
        price: 110_000_000,
        volume: 2_000_000_000_000,
        timestamp: 5,
        source: DataSource::Helius,
    };
    let quiet = MarketData { price: 0, ..busy.clone() };
    assert!(!runtime.observe(&mut pending, slot, &mut engine, &quiet));
    assert!(pending.is_empty());
    assert!(runtime.observe(&mut pending, slot, &mut engine, &busy));
    assert_eq!(pending.len(), 1);
    assert_eq!(pending[0].signal.strategy_type, StrategyType::TokenSniping);
    assert_eq!(pending[0].signal.symbol, "SOL/USDC");
    assert_eq!(pending[0].priority, 0);
    // One failure uses up the budget; the strategy gets no more ticks.
    assert!(!runtime.take_observation(&mut pending, slot, Observation::Failed));
    assert!(!runtime.receives_ticks(slot));
    assert!(!runtime.observe(&mut pending, slot, &mut engine, &busy));
    assert_eq!(pending.len(), 1);
}
