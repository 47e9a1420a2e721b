//! Health of the pipeline's stages and the metrics of the engine, as the
//! monitoring endpoints report them.

use vstd::prelude::*;
use vstd::string::StringExecFns;
use crate::text::{
    decimal_text, fixed_text, push_fixed, push_number, push_signed_fixed, same_text,
    signed_fixed_text,
};

verus! {

/// The health of one stage. The heartbeat is in milliseconds since the Unix
/// epoch.
#[derive(Debug)]
pub struct ServiceStatus {
    pub status: String,
    pub last_heartbeat: i64,
    pub message_count: u64,
    pub error_count: u64,
}

impl Clone for ServiceStatus {
    fn clone(&self) -> (r: Self)
        ensures
            r == *self,
    {
        ServiceStatus {
            status: self.status.clone(),
            last_heartbeat: self.last_heartbeat,
            message_count: self.message_count,
            error_count: self.error_count,
        }
    }
}

/// The health of the five stages.
#[derive(Debug)]
pub struct ComponentHealth {
    pub data_ingestor: ServiceStatus,
    pub strategy_engine: ServiceStatus,
    pub risk_manager: ServiceStatus,
    pub executor: ServiceStatus,
    pub persistence: ServiceStatus,
}

impl Clone for ComponentHealth {
    fn clone(&self) -> (r: Self)
        ensures
            r == *self,
    {
        ComponentHealth {
            data_ingestor: self.data_ingestor.clone(),
            strategy_engine: self.strategy_engine.clone(),
            risk_manager: self.risk_manager.clone(),
            executor: self.executor.clone(),
            persistence: self.persistence.clone(),
        }
    }
}

/// What the health endpoint reports.
#[derive(Debug)]
pub struct HealthStatus {
    pub status: String,
    pub timestamp: i64,
    pub uptime_seconds: u64,
    pub version: String,
    pub components: ComponentHealth,
}

/// The metrics of trading. Volume, profit and success rate are in
/// millionths.
#[derive(Debug, Clone, Copy, PartialEq, Eq, Structural)]
pub struct TradingMetrics {
    pub total_signals: u64,
    pub approved_signals: u64,
    pub executed_trades: u64,
    pub total_volume: u64,
    pub total_pnl: i64,
    pub success_rate: u64,
}

/// The metrics of performance, in millionths.
#[derive(Debug, Clone, Copy, PartialEq, Eq, Structural)]
pub struct PerformanceMetrics {
    pub avg_signal_latency_ms: u64,
    pub avg_execution_latency_ms: u64,
    pub max_latency_ms: u64,
    pub throughput_per_second: u64,
}

/// The depth of each queue between two stages.
#[derive(Debug, Clone, Copy, PartialEq, Eq, Structural)]
pub struct QueueDepths {
    pub market_data_queue: usize,
    pub signal_queue: usize,
    pub execution_queue: usize,
    pub persistence_queue: usize,
}

/// The metrics of the system. Memory and processor usage are in millionths.
#[derive(Debug, Clone, Copy, PartialEq, Eq, Structural)]
pub struct SystemMetrics {
    pub memory_usage_mb: u64,
    pub cpu_usage_percent: u64,
    pub active_connections: u32,
    pub queue_depths: QueueDepths,
}

/// The metrics of the engine.
#[derive(Debug, Clone, Copy, PartialEq, Eq, Structural)]
pub struct Metrics {
    pub trading_metrics: TradingMetrics,
    pub performance_metrics: PerformanceMetrics,
    pub system_metrics: SystemMetrics,
}

/// Metrics with nothing measured.
pub open spec fn no_metrics() -> Metrics {
    Metrics {
        trading_metrics: TradingMetrics {
            total_signals: 0,
            approved_signals: 0,
            executed_trades: 0,
            total_volume: 0,
            total_pnl: 0,
            success_rate: 0,
        },
        performance_metrics: PerformanceMetrics {
            avg_signal_latency_ms: 0,
            avg_execution_latency_ms: 0,
            max_latency_ms: 0,
            throughput_per_second: 0,
        },
        system_metrics: SystemMetrics {
            memory_usage_mb: 0,
            cpu_usage_percent: 0,
            active_connections: 0,
            queue_depths: QueueDepths {
                market_data_queue: 0,
                signal_queue: 0,
                execution_queue: 0,
                persistence_queue: 0,
            },
        },
    }
}

/// The longest time, in milliseconds, since the last heartbeat of a healthy
/// stage.
pub const MAX_HEARTBEAT_AGE_MS: i64 = 30_000;

/// The largest number of errors of a healthy stage.
pub const MAX_ERROR_COUNT: u64 = 10;

/// Whether a stage is healthy at `now`: it is running, its last heartbeat
/// is no older than 30 s, and it has no more than 10 errors.
pub open spec fn service_healthy(service: ServiceStatus, now: i64) -> bool {
    &&& service.status@ == "running"@
    &&& now - service.last_heartbeat <= MAX_HEARTBEAT_AGE_MS
    &&& service.error_count <= MAX_ERROR_COUNT
}

/// Whether a stage is ready: it is neither starting nor in error.
pub open spec fn service_ready(service: ServiceStatus) -> bool {
    service.status@ != "starting"@ && service.status@ != "error"@
}

/// Whether all five stages are healthy at `now`.
pub open spec fn system_healthy(health: ComponentHealth, now: i64) -> bool {
    &&& service_healthy(health.data_ingestor, now)
    &&& service_healthy(health.strategy_engine, now)
    &&& service_healthy(health.risk_manager, now)
    &&& service_healthy(health.executor, now)
    &&& service_healthy(health.persistence, now)
}

/// Whether all five stages are ready.
pub open spec fn system_ready(health: ComponentHealth) -> bool {
    &&& service_ready(health.data_ingestor)
    &&& service_ready(health.strategy_engine)
    &&& service_ready(health.risk_manager)
    &&& service_ready(health.executor)
    &&& service_ready(health.persistence)
}

/// Whether the stage `service` is healthy at `now`.
pub fn is_service_healthy(service: &ServiceStatus, now: i64) -> (r: bool)
    ensures
        r == service_healthy(*service, now),
{
    same_text(service.status.as_str(), "running") && (now as i128) - (
    service.last_heartbeat as i128) <= MAX_HEARTBEAT_AGE_MS as i128 && service.error_count
        <= MAX_ERROR_COUNT
}

/// Whether the stage `service` is ready.
pub fn is_service_ready(service: &ServiceStatus) -> (r: bool)
    ensures
        r == service_ready(*service),
{
    !same_text(service.status.as_str(), "starting") && !same_text(service.status.as_str(), "error")
}

/// Whether all five stages are healthy at `now`.
pub fn is_system_healthy(health: &ComponentHealth, now: i64) -> (r: bool)
    ensures
        r == system_healthy(*health, now),
{
    is_service_healthy(&health.data_ingestor, now) && is_service_healthy(
        &health.strategy_engine,
        now,
    ) && is_service_healthy(&health.risk_manager, now) && is_service_healthy(&health.executor, now)
        && is_service_healthy(&health.persistence, now)
}

/// Whether all five stages are ready.
pub fn is_system_ready(health: &ComponentHealth) -> (r: bool)
    ensures
        r == system_ready(*health),
{
    is_service_ready(&health.data_ingestor) && is_service_ready(&health.strategy_engine)
        && is_service_ready(&health.risk_manager) && is_service_ready(&health.executor)
        && is_service_ready(&health.persistence)
}

/// A stage that is starting, with its heartbeat at `now`.
pub fn starting_service(now: i64) -> (r: ServiceStatus)
    ensures
        r.status@ == "starting"@,
        r.last_heartbeat == now,
        r.message_count == 0,
        r.error_count == 0,
{
    ServiceStatus {
        status: String::from_str("starting"),
        last_heartbeat: now,
        message_count: 0,
        error_count: 0,
    }
}

/// The state that the monitoring endpoints report from. The start time is
/// in milliseconds since the Unix epoch.
#[derive(Debug)]
pub struct MonitoringState {
    pub start_time: i64,
    pub health: ComponentHealth,
    pub metrics: Metrics,
}

/// The stages by the names under which their health is reported.
#[derive(Debug, Clone, Copy, PartialEq, Eq, Structural)]
pub enum Component {
    DataIngestor,
    StrategyEngine,
    RiskManager,
    Executor,
    Persistence,
}

/// The stage that a name names.
pub open spec fn component_named(name: Seq<char>) -> Option<Component> {
    if name == "data_ingestor"@ {
        Some(Component::DataIngestor)
    } else if name == "strategy_engine"@ {
        Some(Component::StrategyEngine)
    } else if name == "risk_manager"@ {
        Some(Component::RiskManager)
    } else if name == "executor"@ {
        Some(Component::Executor)
    } else if name == "persistence"@ {
        Some(Component::Persistence)
    } else {
        None
    }
}

/// The stage that `name` names.
pub fn parse_component(name: &str) -> (r: Option<Component>)
    ensures
        r == component_named(name@),
{
    if same_text(name, "data_ingestor") {
        Some(Component::DataIngestor)
    } else if same_text(name, "strategy_engine") {
        Some(Component::StrategyEngine)
    } else if same_text(name, "risk_manager") {
        Some(Component::RiskManager)
    } else if same_text(name, "executor") {
        Some(Component::Executor)
    } else if same_text(name, "persistence") {
        Some(Component::Persistence)
    } else {
        None
    }
}

impl ComponentHealth {
    /// The health of the stage `component`.
    pub open spec fn of(&self, component: Component) -> ServiceStatus {
        match component {
            Component::DataIngestor => self.data_ingestor,
            Component::StrategyEngine => self.strategy_engine,
            Component::RiskManager => self.risk_manager,
            Component::Executor => self.executor,
            Component::Persistence => self.persistence,
        }
    }
}

impl MonitoringState {
    /// The state at the start, at `now`: every stage is starting and
    /// nothing is measured.
    pub fn new_at(now: i64) -> (r: Self)
        ensures
            r.start_time == now,
            r.metrics == no_metrics(),
            forall|c: Component|
                {
                    &&& (#[trigger] r.health.of(c)).status@ == "starting"@
                    &&& r.health.of(c).last_heartbeat == now
                    &&& r.health.of(c).message_count == 0
                    &&& r.health.of(c).error_count == 0
                },
    {
        MonitoringState {
            start_time: now,
            health: ComponentHealth {
                data_ingestor: starting_service(now),
                strategy_engine: starting_service(now),
                risk_manager: starting_service(now),
                executor: starting_service(now),
                persistence: starting_service(now),
            },
            metrics: Metrics {
                trading_metrics: TradingMetrics {
                    total_signals: 0,
                    approved_signals: 0,
                    executed_trades: 0,
                    total_volume: 0,
                    total_pnl: 0,
                    success_rate: 0,
                },
                performance_metrics: PerformanceMetrics {
                    avg_signal_latency_ms: 0,
                    avg_execution_latency_ms: 0,
                    max_latency_ms: 0,
                    throughput_per_second: 0,
                },
                system_metrics: SystemMetrics {
                    memory_usage_mb: 0,
                    cpu_usage_percent: 0,
                    active_connections: 0,
                    queue_depths: QueueDepths {
                        market_data_queue: 0,
                        signal_queue: 0,
                        execution_queue: 0,
                        persistence_queue: 0,
                    },
                },
            },
        }
    }

    /// The state at the start, at the time of the system clock.
    pub fn new() -> (r: Self)
        ensures
            r.metrics == no_metrics(),
            forall|c: Component|
                {
                    &&& (#[trigger] r.health.of(c)).status@ == "starting"@
                    &&& r.health.of(c).message_count == 0
                    &&& r.health.of(c).error_count == 0
                },
            !system_ready(r.health),
    {
        let r = Self::new_at(crate::platform::now_millis());
        assert(r.health.of(Component::DataIngestor).status@ == "starting"@);
        r
    }

    /// Records the health of the stage that `component` names, with its
    /// heartbeat at `now`. A name that names no stage changes nothing.
    pub fn update_component_health_at(
        &mut self,
        component: &str,
        status: &str,
        message_count: u64,
        error_count: u64,
        now: i64,
    ) -> (r: bool)
        ensures
            final(self).start_time == old(self).start_time,
            final(self).metrics == old(self).metrics,
            match component_named(component@) {
                None => !r && final(self).health == old(self).health,
                Some(named) => {
                    &&& r
                    &&& final(self).health.of(named).status@ == status@
                    &&& final(self).health.of(named).last_heartbeat == now
                    &&& final(self).health.of(named).message_count == message_count
                    &&& final(self).health.of(named).error_count == error_count
                    &&& forall|c: Component|
                        c != named ==> #[trigger] final(self).health.of(c) == old(self).health.of(c)
                },
            },
    {
        let named = match parse_component(component) {
            Some(c) => c,
            None => {
                return false;
            },
        };
        let service = ServiceStatus {
            status: String::from_str(status),
            last_heartbeat: now,
            message_count,
            error_count,
        };
        match named {
            Component::DataIngestor => {
                self.health.data_ingestor = service;
            },
            Component::StrategyEngine => {
                self.health.strategy_engine = service;
            },
            Component::RiskManager => {
                self.health.risk_manager = service;
            },
            Component::Executor => {
                self.health.executor = service;
            },
            Component::Persistence => {
                self.health.persistence = service;
            },
        }
        true
    }

    /// Records the health of a stage with its heartbeat at the time of the
    /// system clock.
    pub fn update_component_health(
        &mut self,
        component: &str,
        status: &str,
        message_count: u64,
        error_count: u64,
    ) -> (r: bool)
        ensures
            final(self).start_time == old(self).start_time,
            final(self).metrics == old(self).metrics,
            r == component_named(component@) is Some,
            !r ==> final(self).health == old(self).health,
            component_named(component@) matches Some(named) ==> {
                &&& final(self).health.of(named).status@ == status@
                &&& final(self).health.of(named).message_count == message_count
                &&& final(self).health.of(named).error_count == error_count
                &&& forall|c: Component|
                    c != named ==> #[trigger] final(self).health.of(c) == old(self).health.of(c)
            },
    {
        let now = crate::platform::now_millis();
        self.update_component_health_at(component, status, message_count, error_count, now)
    }

    /// The whole seconds from the start to `now`; nothing where `now` is
    /// before the start.
    pub open spec fn uptime(&self, now: i64) -> int {
        if now < self.start_time {
            0
        } else {
            (now - self.start_time) / 1000
        }
    }

    /// What the health endpoint reports at `now` for the version `version`:
    /// `healthy` where all stages are healthy, else `unhealthy`.
    pub fn health_check(&self, version: &str, now: i64) -> (r: HealthStatus)
        ensures
            r.status@ == if system_healthy(self.health, now) {
                "healthy"@
            } else {
                "unhealthy"@
            },
            r.timestamp == now,
            r.uptime_seconds as int == self.uptime(now),
            r.version@ == version@,
            r.components == self.health,
    {
        let status = if is_system_healthy(&self.health, now) {
            String::from_str("healthy")
        } else {
            String::from_str("unhealthy")
        };
        let uptime_seconds: u64 = if now < self.start_time {
            0
        } else {
            (((now as i128) - (self.start_time as i128)) / 1000) as u64
        };
        HealthStatus {
            status,
            timestamp: now,
            uptime_seconds,
            version: String::from_str(version),
            components: self.health.clone(),
        }
    }

    /// The status with which the readiness endpoint answers: 200 where all
    /// stages are ready, else 503.
    pub fn readiness_check(&self) -> (r: u16)
        ensures
            r == if system_ready(self.health) {
                200u16
            } else {
                503u16
            },
    {
        if is_system_ready(&self.health) {
            200
        } else {
            503
        }
    }

    /// The metrics as the metrics endpoint reports them.
    pub fn metrics_endpoint(&self) -> (r: Metrics)
        ensures
            r == self.metrics,
    {
        self.metrics
    }
}

/// The status with which the liveness endpoint answers: always 200.
pub fn liveness_check() -> (r: u16)
    ensures
        r == 200,
{
    200
}

/// The metrics in the text format of Prometheus: for each of five metrics a
/// line of help, a line with its type and a line with its value, an empty
/// line between each two metrics.
pub open spec fn prometheus_text(metrics: Metrics) -> Seq<char> {
    "# HELP sniper_total_signals Total number of trading signals generated\n# TYPE sniper_total_signals counter\nsniper_total_signals "@
        + decimal_text(metrics.trading_metrics.total_signals as nat)
        + "\n\n# HELP sniper_executed_trades Total number of executed trades\n# TYPE sniper_executed_trades counter\nsniper_executed_trades "@
        + decimal_text(metrics.trading_metrics.executed_trades as nat)
        + "\n\n# HELP sniper_avg_latency_ms Average signal processing latency in milliseconds\n# TYPE sniper_avg_latency_ms gauge\nsniper_avg_latency_ms "@
        + fixed_text(metrics.performance_metrics.avg_signal_latency_ms as nat)
        + "\n\n# HELP sniper_total_pnl Total profit and loss\n# TYPE sniper_total_pnl gauge\nsniper_total_pnl "@
        + signed_fixed_text(metrics.trading_metrics.total_pnl as int)
        + "\n\n# HELP sniper_success_rate Trading success rate\n# TYPE sniper_success_rate gauge\nsniper_success_rate "@
        + fixed_text(metrics.trading_metrics.success_rate as nat) + "\n"@
}

/// The metrics in the text format of Prometheus.
pub fn prometheus_metrics(metrics: &Metrics) -> (r: String)
    ensures
        r@ == prometheus_text(*metrics),
{
    let mut r = String::from_str(
        "# HELP sniper_total_signals Total number of trading signals generated\n# TYPE sniper_total_signals counter\nsniper_total_signals ",
    );
    push_number(&mut r, metrics.trading_metrics.total_signals);
    r.append(
        "\n\n# HELP sniper_executed_trades Total number of executed trades\n# TYPE sniper_executed_trades counter\nsniper_executed_trades ",
    );
    push_number(&mut r, metrics.trading_metrics.executed_trades);
    r.append(
        "\n\n# HELP sniper_avg_latency_ms Average signal processing latency in milliseconds\n# TYPE sniper_avg_latency_ms gauge\nsniper_avg_latency_ms ",
    );
    push_fixed(&mut r, metrics.performance_metrics.avg_signal_latency_ms);
    r.append(
        "\n\n# HELP sniper_total_pnl Total profit and loss\n# TYPE sniper_total_pnl gauge\nsniper_total_pnl ",
    );
    push_signed_fixed(&mut r, metrics.trading_metrics.total_pnl);
    r.append(
        "\n\n# HELP sniper_success_rate Trading success rate\n# TYPE sniper_success_rate gauge\nsniper_success_rate ",
    );
    push_fixed(&mut r, metrics.trading_metrics.success_rate);
    r.append("\n");
    r
}

} // verus!
