//! The staged pipeline: the bounded queues between the stages, with what
//! each does when it is full, and the supervisor that watches the stages
//! and shuts them down in order.

use vstd::prelude::*;
use std::collections::VecDeque;
use crate::modules::data_ingestor::MarketData;
use crate::modules::executor::ExecutionResult;
use crate::fixed::{saturating_add, saturating_sum};
use crate::modules::multi_wallet_executor::RoutedSignal;
use crate::modules::risk::ApprovedSignal;
use crate::modules::strategy::TradingSignal;

verus! {

/// A queue between two stages that holds no more than its capacity. It
/// counts the items it dropped and the times a producer had to wait.
pub struct BoundedQueue<T> {
    pub items: VecDeque<T>,
    pub capacity: usize,
    pub dropped: u64,
    pub waits: u64,
}

impl<T> BoundedQueue<T> {
    /// A queue is well formed when it has room for at least one item and
    /// holds no more than its capacity.
    pub open spec fn well_formed(&self) -> bool {
        0 < self.capacity && self.items@.len() <= self.capacity
    }

    /// Whether the queue holds as much as it can.
    pub open spec fn full(&self) -> bool {
        self.items@.len() >= self.capacity
    }

    /// An empty queue of the capacity `capacity`.
    pub fn new(capacity: usize) -> (r: Self)
        requires
            capacity > 0,
        ensures
            r.well_formed(),
            r.items@.len() == 0,
            r.capacity == capacity,
            r.dropped == 0,
            r.waits == 0,
    {
        BoundedQueue { items: VecDeque::new(), capacity, dropped: 0, waits: 0 }
    }

    /// Whether the queue is well formed.
    pub fn is_well_formed(&self) -> (r: bool)
        ensures
            r == self.well_formed(),
    {
        0 < self.capacity && self.items.len() <= self.capacity
    }

    /// The number of items in the queue.
    pub fn len(&self) -> (r: usize)
        ensures
            r == self.items@.len(),
    {
        self.items.len()
    }

    /// Whether the queue holds as much as it can.
    pub fn is_full(&self) -> (r: bool)
        ensures
            r == self.full(),
    {
        self.items.len() >= self.capacity
    }

    /// Puts `item` into the queue, whatever its state: the producer never
    /// waits. Into a full queue the item goes in the place of the oldest
    /// one, which is handed back and counted as dropped.
    pub fn push_dropping_oldest(&mut self, item: T) -> (r: Option<T>)
        requires
            old(self).well_formed(),
        ensures
            final(self).well_formed(),
            final(self).capacity == old(self).capacity,
            final(self).waits == old(self).waits,
            final(self).items@.len() > 0,
            final(self).items@.last() == item,
            if old(self).full() {
                &&& r == Some(old(self).items@[0])
                &&& final(self).items@ == old(self).items@.drop_first().push(item)
                &&& final(self).dropped == saturating_sum(old(self).dropped, 1)
            } else {
                &&& r is None
                &&& final(self).items@ == old(self).items@.push(item)
                &&& final(self).dropped == old(self).dropped
            },
    {
        let oldest = if self.items.len() >= self.capacity {
            self.dropped = saturating_add(self.dropped, 1);
            let taken = self.items.pop_front();
            assert(self.items@ =~= old(self).items@.drop_first());
            taken
        } else {
            None
        };
        self.items.push_back(item);
        oldest
    }

    /// Offers `item` to the queue: it goes to the end of a queue with room.
    /// A full queue hands it back, and the producer is counted as waiting;
    /// nothing is dropped, whatever the state of the queue.
    pub fn offer(&mut self, item: T) -> (r: Result<(), T>)
        requires
            old(self).well_formed(),
        ensures
            final(self).well_formed(),
            final(self).capacity == old(self).capacity,
            final(self).dropped == old(self).dropped,
            if old(self).full() {
                &&& r == Err::<(), T>(item)
                &&& final(self).items@ == old(self).items@
                &&& final(self).waits == saturating_sum(old(self).waits, 1)
            } else {
                &&& r is Ok
                &&& final(self).items@ == old(self).items@.push(item)
                &&& final(self).waits == old(self).waits
            },
    {
        if self.items.len() >= self.capacity {
            self.waits = saturating_add(self.waits, 1);
            Err(item)
        } else {
            self.items.push_back(item);
            Ok(())
        }
    }

    /// Takes the oldest item out of the queue.
    pub fn take(&mut self) -> (r: Option<T>)
        requires
            old(self).well_formed(),
        ensures
            final(self).well_formed(),
            final(self).capacity == old(self).capacity,
            final(self).dropped == old(self).dropped,
            final(self).waits == old(self).waits,
            if old(self).items@.len() == 0 {
                r is None && final(self).items@ == old(self).items@
            } else {
                r == Some(old(self).items@[0]) && final(self).items@ == old(self).items@.drop_first()
            },
    {
        let taken = self.items.pop_front();
        proof {
            if old(self).items@.len() > 0 {
                assert(self.items@ =~= old(self).items@.drop_first());
            }
        }
        taken
    }
}

/// The capacities of the queues between the stages.
#[derive(Debug, Clone, Copy, PartialEq, Eq, Structural)]
pub struct QueueCapacities {
    pub ticks: usize,
    pub signals: usize,
    pub approved: usize,
    pub routed: usize,
    pub results: usize,
}

/// The queues between the stages.
pub struct PipelineQueues {
    pub ticks: BoundedQueue<MarketData>,
    pub signals: BoundedQueue<TradingSignal>,
    pub approved: BoundedQueue<ApprovedSignal>,
    pub routed: BoundedQueue<RoutedSignal>,
    pub results: BoundedQueue<ExecutionResult>,
}

impl PipelineQueues {
    /// The queues are well formed when each of them is.
    pub open spec fn well_formed(&self) -> bool {
        &&& self.ticks.well_formed()
        &&& self.signals.well_formed()
        &&& self.approved.well_formed()
        &&& self.routed.well_formed()
        &&& self.results.well_formed()
    }

    /// Whether the queues are well formed.
    pub fn is_well_formed(&self) -> (r: bool)
        ensures
            r == self.well_formed(),
    {
        self.ticks.is_well_formed() && self.signals.is_well_formed()
            && self.approved.is_well_formed() && self.routed.is_well_formed()
            && self.results.is_well_formed()
    }

    /// The number of ticks that were dropped.
    pub open spec fn ticks_dropped(&self) -> u64 {
        self.ticks.dropped
    }

    /// The number of signals that were dropped anywhere between the
    /// strategies and the executor.
    pub open spec fn intents_dropped(&self) -> int {
        self.signals.dropped + self.approved.dropped + self.routed.dropped
    }

    /// Empty queues of the capacities `capacities`.
    pub fn new(capacities: QueueCapacities) -> (r: Self)
        requires
            capacities.ticks > 0,
            capacities.signals > 0,
            capacities.approved > 0,
            capacities.routed > 0,
            capacities.results > 0,
        ensures
            r.well_formed(),
            r.ticks_dropped() == 0,
            r.intents_dropped() == 0,
            r.ticks.capacity == capacities.ticks,
            r.signals.capacity == capacities.signals,
            r.approved.capacity == capacities.approved,
            r.routed.capacity == capacities.routed,
            r.results.capacity == capacities.results,
    {
        PipelineQueues {
            ticks: BoundedQueue::new(capacities.ticks),
            signals: BoundedQueue::new(capacities.signals),
            approved: BoundedQueue::new(capacities.approved),
            routed: BoundedQueue::new(capacities.routed),
            results: BoundedQueue::new(capacities.results),
        }
    }

    /// Takes a tick from the ingest stage, which never waits: a full queue
    /// drops its oldest tick for it, and counts that.
    pub fn ingest_tick(&mut self, tick: MarketData)
        requires
            old(self).well_formed(),
        ensures
            final(self).well_formed(),
            final(self).signals == old(self).signals,
            final(self).approved == old(self).approved,
            final(self).routed == old(self).routed,
            final(self).results == old(self).results,
            final(self).ticks.capacity == old(self).ticks.capacity,
            final(self).ticks.waits == old(self).ticks.waits,
            final(self).ticks.items@ == if old(self).ticks.full() {
                old(self).ticks.items@.drop_first().push(tick)
            } else {
                old(self).ticks.items@.push(tick)
            },
            final(self).ticks_dropped() == if old(self).ticks.full() {
                saturating_sum(old(self).ticks_dropped(), 1)
            } else {
                old(self).ticks_dropped()
            },
            final(self).intents_dropped() == old(self).intents_dropped(),
    {
        let _ = self.ticks.push_dropping_oldest(tick);
    }

    /// Offers a signal of a strategy to the risk gate. A full queue hands
    /// the signal back, for the strategy to wait and offer it again; no
    /// signal is dropped.
    pub fn offer_signal(&mut self, signal: TradingSignal) -> (r: Result<(), TradingSignal>)
        requires
            old(self).well_formed(),
        ensures
            final(self).well_formed(),
            final(self).ticks == old(self).ticks,
            final(self).approved == old(self).approved,
            final(self).routed == old(self).routed,
            final(self).results == old(self).results,
            final(self).intents_dropped() == old(self).intents_dropped(),
            final(self).intents_dropped() == 0 <==> old(self).intents_dropped() == 0,
            final(self).signals.capacity == old(self).signals.capacity,
            final(self).signals.dropped == old(self).signals.dropped,
            if old(self).signals.full() {
                &&& r == Err::<(), TradingSignal>(signal)
                &&& final(self).signals.items@ == old(self).signals.items@
                &&& final(self).signals.waits == saturating_sum(old(self).signals.waits, 1)
            } else {
                &&& r is Ok
                &&& final(self).signals.items@ == old(self).signals.items@.push(signal)
                &&& final(self).signals.waits == old(self).signals.waits
            },
    {
        self.signals.offer(signal)
    }
}

/// The stages of the pipeline.
#[derive(Debug, Clone, Copy, PartialEq, Eq, Structural, Hash)]
pub enum Stage {
    Ingest,
    Strategy,
    Risk,
    Router,
    Executor,
    Persistence,
}

/// Whether a stage runs.
#[derive(Debug, Clone, Copy, PartialEq, Eq, Structural, Hash)]
pub enum StageStatus {
    /// The stage runs.
    Running,
    /// The stage was stopped, or ended of itself.
    Stopped,
    /// The stage ended with a fatal error; it is not started again.
    Failed,
}

/// What the supervisor knows of a stage. The heartbeat is in milliseconds
/// since the Unix epoch.
#[derive(Debug, Clone, Copy, PartialEq, Eq, Structural)]
pub struct StageRecord {
    pub status: StageStatus,
    pub last_heartbeat: i64,
}

/// Why a stage was not started again.
#[derive(Debug, Clone, Copy, PartialEq, Eq, Structural)]
pub enum RestartRefused {
    /// The stage ended with a fatal error.
    FatalExit,
    /// The pipeline is shutting down.
    ShuttingDown,
    /// The stage runs.
    AlreadyRunning,
}

/// The supervisor of the stages.
#[derive(Debug, Clone, Copy, PartialEq, Eq, Structural)]
pub struct PipelineSupervisor {
    pub ingest: StageRecord,
    pub strategy: StageRecord,
    pub risk: StageRecord,
    pub router: StageRecord,
    pub executor: StageRecord,
    pub persistence: StageRecord,
    pub heartbeat_interval_ms: u64,
    pub shutting_down: bool,
}

/// The order in which the stages are shut down: the executor first, then
/// upstream stage by stage to the ingest, so that work in flight drains, and
/// the persistence last, which takes what drains.
pub open spec fn shutdown_order() -> Seq<Stage> {
    seq![
        Stage::Executor,
        Stage::Router,
        Stage::Risk,
        Stage::Strategy,
        Stage::Ingest,
        Stage::Persistence,
    ]
}

/// The place of a stage in the order of shutting down.
pub open spec fn place(stage: Stage) -> int {
    match stage {
        Stage::Executor => 0,
        Stage::Router => 1,
        Stage::Risk => 2,
        Stage::Strategy => 3,
        Stage::Ingest => 4,
        Stage::Persistence => 5,
    }
}

/// The stage that is stopped next runs, and every stage before it in the
/// order of shutting down has stopped already; where none is left to stop,
/// no stage runs.
pub proof fn lemma_next_to_stop_is_furthest_downstream(supervisor: PipelineSupervisor)
    ensures
        match supervisor.next_running(0) {
            Some(stage) => {
                &&& supervisor.record(stage).status == StageStatus::Running
                &&& forall|other: Stage|
                    place(other) < place(stage) ==> (#[trigger] supervisor.record(other)).status
                        != StageStatus::Running
            },
            None => forall|other: Stage|
                (#[trigger] supervisor.record(other)).status != StageStatus::Running,
        },
{
    reveal_with_fuel(PipelineSupervisor::next_running, 7);
}

/// Shutting down goes upstream: once the stage that was next to stop has
/// stopped, the stage that is then next comes later in the order.
pub proof fn lemma_shutdown_goes_upstream(supervisor: PipelineSupervisor, stage: Stage, next: Stage)
    requires
        supervisor.next_running(0) == Some(stage),
        supervisor.with_record(
            stage,
            StageRecord { status: StageStatus::Stopped, ..supervisor.record(stage) },
        ).next_running(0) == Some(next),
    ensures
        place(stage) < place(next),
{
    reveal_with_fuel(PipelineSupervisor::next_running, 7);
}

impl PipelineSupervisor {
    /// What the supervisor knows of `stage`.
    pub open spec fn record(&self, stage: Stage) -> StageRecord {
        match stage {
            Stage::Ingest => self.ingest,
            Stage::Strategy => self.strategy,
            Stage::Risk => self.risk,
            Stage::Router => self.router,
            Stage::Executor => self.executor,
            Stage::Persistence => self.persistence,
        }
    }

    /// The supervisor with another record for `stage`.
    pub open spec fn with_record(&self, stage: Stage, record: StageRecord) -> PipelineSupervisor {
        match stage {
            Stage::Ingest => PipelineSupervisor { ingest: record, ..*self },
            Stage::Strategy => PipelineSupervisor { strategy: record, ..*self },
            Stage::Risk => PipelineSupervisor { risk: record, ..*self },
            Stage::Router => PipelineSupervisor { router: record, ..*self },
            Stage::Executor => PipelineSupervisor { executor: record, ..*self },
            Stage::Persistence => PipelineSupervisor { persistence: record, ..*self },
        }
    }

    /// Whether `stage` has missed its heartbeat at `now`: it runs, and its
    /// last heartbeat is older than the interval.
    pub open spec fn overdue(&self, stage: Stage, now: i64) -> bool {
        self.record(stage).status == StageStatus::Running && now - self.record(
            stage,
        ).last_heartbeat > self.heartbeat_interval_ms
    }

    /// The first stage in the order of shutting down that still runs, from
    /// position `from` on.
    pub open spec fn next_running(&self, from: int) -> Option<Stage>
        decreases 6 - from,
    {
        if from < 0 || from >= 6 {
            None
        } else if self.record(shutdown_order()[from]).status == StageStatus::Running {
            Some(shutdown_order()[from])
        } else {
            self.next_running(from + 1)
        }
    }

    /// A supervisor of six running stages whose heartbeats are at `now`.
    pub fn new(heartbeat_interval_ms: u64, now: i64) -> (r: Self)
        ensures
            r.heartbeat_interval_ms == heartbeat_interval_ms,
            !r.shutting_down,
            forall|stage: Stage|
                #[trigger] r.record(stage) == (StageRecord {
                    status: StageStatus::Running,
                    last_heartbeat: now,
                }),
    {
        let record = StageRecord { status: StageStatus::Running, last_heartbeat: now };
        PipelineSupervisor {
            ingest: record,
            strategy: record,
            risk: record,
            router: record,
            executor: record,
            persistence: record,
            heartbeat_interval_ms,
            shutting_down: false,
        }
    }

    /// What the supervisor knows of `stage`.
    pub fn get(&self, stage: Stage) -> (r: StageRecord)
        ensures
            r == self.record(stage),
    {
        match stage {
            Stage::Ingest => self.ingest,
            Stage::Strategy => self.strategy,
            Stage::Risk => self.risk,
            Stage::Router => self.router,
            Stage::Executor => self.executor,
            Stage::Persistence => self.persistence,
        }
    }

    /// Replaces what the supervisor knows of `stage`.
    pub fn set(&mut self, stage: Stage, record: StageRecord)
        ensures
            *final(self) == old(self).with_record(stage, record),
            final(self).record(stage) == record,
            forall|other: Stage|
                other != stage ==> #[trigger] final(self).record(other) == old(self).record(other),
    {
        match stage {
            Stage::Ingest => {
                self.ingest = record;
            },
            Stage::Strategy => {
                self.strategy = record;
            },
            Stage::Risk => {
                self.risk = record;
            },
            Stage::Router => {
                self.router = record;
            },
            Stage::Executor => {
                self.executor = record;
            },
            Stage::Persistence => {
                self.persistence = record;
            },
        }
    }

    /// Records a heartbeat of `stage` at `now`.
    pub fn record_heartbeat(&mut self, stage: Stage, now: i64)
        ensures
            *final(self) == old(self).with_record(
                stage,
                StageRecord { last_heartbeat: now, ..old(self).record(stage) },
            ),
    {
        let record = self.get(stage);
        self.set(stage, StageRecord { status: record.status, last_heartbeat: now });
    }

    /// Whether `stage` has missed its heartbeat at `now`.
    pub fn is_overdue(&self, stage: Stage, now: i64) -> (r: bool)
        ensures
            r == self.overdue(stage, now),
    {
        let record = self.get(stage);
        record.status == StageStatus::Running && (now as i128) - (record.last_heartbeat as i128)
            > self.heartbeat_interval_ms as i128
    }

    /// Takes note that `stage` has ended, with a fatal error or without:
    /// the stage no longer runs, and the pipeline shuts down.
    pub fn stage_exited(&mut self, stage: Stage, fatal: bool)
        ensures
            *final(self) == (PipelineSupervisor {
                shutting_down: true,
                ..old(self).with_record(
                    stage,
                    StageRecord {
                        status: if fatal || old(self).record(stage).status == StageStatus::Failed {
                            StageStatus::Failed
                        } else {
                            StageStatus::Stopped
                        },
                        ..old(self).record(stage)
                    },
                )
            }),
    {
        let record = self.get(stage);
        let status = if fatal || record.status == StageStatus::Failed {
            StageStatus::Failed
        } else {
            StageStatus::Stopped
        };
        self.set(stage, StageRecord { status, last_heartbeat: record.last_heartbeat });
        self.shutting_down = true;
    }

    /// The stage to stop next while the pipeline shuts down: the first in
    /// the order of shutting down that still runs. Outside a shutdown there
    /// is none.
    pub fn next_to_stop(&self) -> (r: Option<Stage>)
        ensures
            r == if self.shutting_down {
                self.next_running(0)
            } else {
                None
            },
    {
        if !self.shutting_down {
            return None;
        }
        reveal_with_fuel(PipelineSupervisor::next_running, 7);
        if self.executor.status == StageStatus::Running {
            Some(Stage::Executor)
        } else if self.router.status == StageStatus::Running {
            Some(Stage::Router)
        } else if self.risk.status == StageStatus::Running {
            Some(Stage::Risk)
        } else if self.strategy.status == StageStatus::Running {
            Some(Stage::Strategy)
        } else if self.ingest.status == StageStatus::Running {
            Some(Stage::Ingest)
        } else if self.persistence.status == StageStatus::Running {
            Some(Stage::Persistence)
        } else {
            None
        }
    }

    /// Stops the stage that is to stop next, and names it.
    pub fn stop_next(&mut self) -> (r: Option<Stage>)
        ensures
            r == if old(self).shutting_down {
                old(self).next_running(0)
            } else {
                None
            },
            match r {
                Some(stage) => *final(self) == old(self).with_record(
                    stage,
                    StageRecord { status: StageStatus::Stopped, ..old(self).record(stage) },
                ),
                None => *final(self) == *old(self),
            },
    {
        match self.next_to_stop() {
            Some(stage) => {
                let record = self.get(stage);
                self.set(
                    stage,
                    StageRecord {
                        status: StageStatus::Stopped,
                        last_heartbeat: record.last_heartbeat,
                    },
                );
                Some(stage)
            },
            None => None,
        }
    }

    /// Starts `stage` again at `now`. A stage that ended with a fatal error
    /// is never started again; nor is any stage while the pipeline shuts
    /// down, nor one that runs.
    pub fn restart_stage(&mut self, stage: Stage, now: i64) -> (r: Result<(), RestartRefused>)
        ensures
            match r {
                Ok(()) => {
                    &&& old(self).record(stage).status == StageStatus::Stopped
                    &&& !old(self).shutting_down
                    &&& *final(self) == old(self).with_record(
                        stage,
                        StageRecord { status: StageStatus::Running, last_heartbeat: now },
                    )
                },
                Err(reason) => {
                    &&& *final(self) == *old(self)
                    &&& reason == if old(self).record(stage).status == StageStatus::Failed {
                        RestartRefused::FatalExit
                    } else if old(self).shutting_down {
                        RestartRefused::ShuttingDown
                    } else {
                        RestartRefused::AlreadyRunning
                    }
                    &&& (old(self).record(stage).status != StageStatus::Stopped || old(self).shutting_down)
                },
            },
    {
        let record = self.get(stage);
        if record.status == StageStatus::Failed {
            return Err(RestartRefused::FatalExit);
        }
        if self.shutting_down {
            return Err(RestartRefused::ShuttingDown);
        }
        if record.status == StageStatus::Running {
            return Err(RestartRefused::AlreadyRunning);
        }
        self.set(stage, StageRecord { status: StageStatus::Running, last_heartbeat: now });
        Ok(())
    }
}

} // verus!
