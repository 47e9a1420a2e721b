//! The runtime of the strategies: each strategy has a cooldown between its
//! signals and an error budget, and the signals of all strategies are
//! merged into one stream by priority and time.

use vstd::prelude::*;
use crate::fixed::{saturating_add, saturating_sum};
use crate::modules::data_ingestor::MarketData;
use crate::modules::strategy::{
    snipe_applies, snipe_confidence, snipe_target, StrategyEngine, StrategyType, TradeAction,
    TradingSignal, SNIPE_QUANTITY,
};
use crate::lists::picked;

verus! {

/// What the runtime knows of one strategy. Failures are kept by the number
/// of the tick at which they happened.
#[derive(Debug)]
pub struct StrategySlot {
    pub kind: StrategyType,
    pub priority: u32,
    pub last_emit: Option<i64>,
    pub failure_ticks: Vec<u64>,
    pub quarantined: bool,
}

/// A signal that waits to be emitted, with the priority of its strategy.
#[derive(Debug)]
pub struct PendingSignal {
    pub priority: u32,
    pub signal: TradingSignal,
}

/// The runtime of the strategies. The cooldown is in milliseconds; a
/// strategy is quarantined after `max_failures` failures within
/// `failure_window` ticks.
#[derive(Debug)]
pub struct StrategyRuntime {
    pub slots: Vec<StrategySlot>,
    pub cooldown_ms: u64,
    pub max_failures: usize,
    pub failure_window: u64,
    pub tick: u64,
    pub quarantined_count: u64,
}

/// Whether a strategy that last emitted at `last_emit` may emit at `at`:
/// it has not emitted yet, or the cooldown has passed since.
pub open spec fn cooled_down(last_emit: Option<i64>, at: i64, cooldown_ms: u64) -> bool {
    match last_emit {
        None => true,
        Some(last) => at - last >= cooldown_ms,
    }
}

/// Whether a failure at the tick `failed` still counts at the tick `now`:
/// it is no more than `window` ticks old.
pub open spec fn counts(failed: u64, now: u64, window: u64) -> bool {
    now - failed < window
}

/// For each failure, whether it still counts at the tick `now`.
pub open spec fn counting(failures: Seq<u64>, now: u64, window: u64) -> Seq<bool> {
    Seq::new(failures.len(), |i: int| counts(failures[i], now, window))
}

/// Whether `a` is emitted before `b` where both wait: for its priority,
/// which is the lower number, or at the same priority for its earlier time.
pub open spec fn emits_before(a: PendingSignal, b: PendingSignal) -> bool {
    a.priority < b.priority || (a.priority == b.priority && a.signal.timestamp
        < b.signal.timestamp)
}

/// Whether the signals that wait are in the order in which they are
/// emitted.
pub open spec fn in_order(pending: Seq<PendingSignal>) -> bool {
    forall|i: int, j: int| 0 <= i < j < pending.len() ==> !emits_before(pending[j], pending[i])
}

/// The place of `item` among the signals that wait: after all that are not
/// emitted after it.
pub open spec fn place_of(pending: Seq<PendingSignal>, item: PendingSignal) -> int
    decreases pending.len(),
{
    if pending.len() == 0 {
        0
    } else if emits_before(item, pending[0]) {
        0
    } else {
        1 + place_of(pending.drop_first(), item)
    }
}

/// The place of an item is within the list; nothing before it is emitted
/// after the item, and what stands at it is.
pub proof fn lemma_place_of(pending: Seq<PendingSignal>, item: PendingSignal)
    ensures
        0 <= place_of(pending, item) <= pending.len(),
        forall|k: int| 0 <= k < place_of(pending, item) ==> !emits_before(item, pending[k]),
        place_of(pending, item) < pending.len() ==> emits_before(
            item,
            pending[place_of(pending, item)],
        ),
    decreases pending.len(),
{
    if pending.len() > 0 && !emits_before(item, pending[0]) {
        let rest = pending.drop_first();
        lemma_place_of(rest, item);
        assert forall|k: int| 0 <= k < place_of(pending, item) implies !emits_before(
            item,
            pending[k],
        ) by {
            if k > 0 {
                assert(rest[k - 1] == pending[k]);
            }
        }
        if place_of(pending, item) < pending.len() {
            assert(rest[place_of(rest, item)] == pending[place_of(pending, item)]);
        }
    }
}

/// Putting an item at its place keeps the signals in order.
pub proof fn lemma_insert_keeps_order(pending: Seq<PendingSignal>, item: PendingSignal)
    requires
        in_order(pending),
    ensures
        in_order(pending.insert(place_of(pending, item), item)),
{
    lemma_place_of(pending, item);
    let at = place_of(pending, item);
    let after = pending.insert(at, item);
    assert forall|i: int, j: int| 0 <= i < j < after.len() implies !emits_before(
        after[j],
        after[i],
    ) by {
        if j < at {
            assert(after[i] == pending[i] && after[j] == pending[j]);
        } else if j == at {
            assert(after[i] == pending[i]);
        } else if i < at {
            assert(after[i] == pending[i] && after[j] == pending[j - 1]);
        } else if i == at {
            assert(after[j] == pending[j - 1]);
            if at < pending.len() && j - 1 > at {
                assert(!emits_before(pending[j - 1], pending[at]));
            }
        } else {
            assert(after[i] == pending[i - 1] && after[j] == pending[j - 1]);
        }
    }
}

impl StrategyRuntime {
    /// Whether `after` is this runtime after the strategy in `slot` failed
    /// at the current tick, and `newly` says whether that quarantined it.
    /// The failures that no longer count are forgotten; with as many
    /// failures that count as the budget allows, the strategy is
    /// quarantined. Nothing else changes.
    pub open spec fn failure_recorded(&self, after: StrategyRuntime, slot: int, newly: bool)
        -> bool {
        let was = self.slots@[slot];
        let is = after.slots@[slot];
        let all = was.failure_ticks@.push(self.tick);
        let kept = picked(counting(all, self.tick, self.failure_window), all.len() as int);
        &&& after.cooldown_ms == self.cooldown_ms
        &&& after.max_failures == self.max_failures
        &&& after.failure_window == self.failure_window
        &&& after.tick == self.tick
        &&& after.slots@.len() == self.slots@.len()
        &&& forall|k: int|
            0 <= k < after.slots@.len() && k != slot ==> #[trigger] after.slots@[k]
                == self.slots@[k]
        &&& is.kind == was.kind
        &&& is.priority == was.priority
        &&& is.last_emit == was.last_emit
        &&& is.failure_ticks@.len() == kept.len()
        &&& forall|k: int| 0 <= k < kept.len() ==> #[trigger] is.failure_ticks@[k] == all[kept[k]]
        &&& is.quarantined == (was.quarantined || kept.len() >= self.max_failures)
        &&& newly == (!was.quarantined && is.quarantined)
        &&& after.quarantined_count == if newly {
            saturating_sum(self.quarantined_count, 1)
        } else {
            self.quarantined_count
        }
    }

    /// Whether the strategy in `slot` may emit a signal stamped `at`: it is
    /// not quarantined, and its cooldown has passed.
    pub open spec fn may_emit(&self, slot: int, at: i64) -> bool {
        !self.slots@[slot].quarantined && cooled_down(
            self.slots@[slot].last_emit,
            at,
            self.cooldown_ms,
        )
    }

    /// A runtime without strategies, at tick zero.
    pub fn new(cooldown_ms: u64, max_failures: usize, failure_window: u64) -> (r: Self)
        ensures
            r.slots@.len() == 0,
            r.cooldown_ms == cooldown_ms,
            r.max_failures == max_failures,
            r.failure_window == failure_window,
            r.tick == 0,
            r.quarantined_count == 0,
    {
        StrategyRuntime {
            slots: Vec::new(),
            cooldown_ms,
            max_failures,
            failure_window,
            tick: 0,
            quarantined_count: 0,
        }
    }

    /// Registers a strategy of the kind `kind` with the priority
    /// `priority`, and gives its slot.
    pub fn register(&mut self, kind: StrategyType, priority: u32) -> (r: usize)
        ensures
            r == old(self).slots@.len(),
            final(self).slots@.len() == old(self).slots@.len() + 1,
            final(self).slots@.drop_last() == old(self).slots@,
            final(self).slots@.last().kind == kind,
            final(self).slots@.last().priority == priority,
            final(self).slots@.last().last_emit is None,
            final(self).slots@.last().failure_ticks@.len() == 0,
            !final(self).slots@.last().quarantined,
            final(self).cooldown_ms == old(self).cooldown_ms,
            final(self).max_failures == old(self).max_failures,
            final(self).failure_window == old(self).failure_window,
            final(self).tick == old(self).tick,
            final(self).quarantined_count == old(self).quarantined_count,
    {
        let at = self.slots.len();
        self.slots.push(
            StrategySlot {
                kind,
                priority,
                last_emit: None,
                failure_ticks: Vec::new(),
                quarantined: false,
            },
        );
        assert(self.slots@.drop_last() =~= old(self).slots@);
        at
    }

    /// Begins the next tick.
    pub fn begin_tick(&mut self)
        ensures
            *final(self) == (StrategyRuntime {
                tick: saturating_sum(old(self).tick, 1),
                ..*old(self)
            }),
    {
        self.tick = saturating_add(self.tick, 1);
    }

    /// Whether the strategy in `slot` is handed ticks: it is, unless it is
    /// quarantined.
    pub fn receives_ticks(&self, slot: usize) -> (r: bool)
        requires
            slot < self.slots@.len(),
        ensures
            r == !self.slots@[slot as int].quarantined,
    {
        !self.slots[slot].quarantined
    }

    /// Whether the strategy in `slot` may emit a signal stamped `at`; if it
    /// may, the signal counts as emitted. A quarantined strategy may not,
    /// nor one whose last signal is less than the cooldown old.
    pub fn allow_emit(&mut self, slot: usize, at: i64) -> (r: bool)
        requires
            slot < old(self).slots@.len(),
        ensures
            r == (!old(self).slots@[slot as int].quarantined && cooled_down(
                old(self).slots@[slot as int].last_emit,
                at,
                old(self).cooldown_ms,
            )),
            r ==> final(self).slots@ == old(self).slots@.update(
                slot as int,
                StrategySlot { last_emit: Some(at), ..old(self).slots@[slot as int] },
            ),
            !r ==> final(self).slots == old(self).slots,
            final(self).cooldown_ms == old(self).cooldown_ms,
            final(self).max_failures == old(self).max_failures,
            final(self).failure_window == old(self).failure_window,
            final(self).tick == old(self).tick,
            final(self).quarantined_count == old(self).quarantined_count,
    {
        if self.slots[slot].quarantined {
            return false;
        }
        let cooled = match self.slots[slot].last_emit {
            None => true,
            Some(last) => (at as i128) - (last as i128) >= self.cooldown_ms as i128,
        };
        if cooled {
            self.slots[slot].last_emit = Some(at);
            assert(self.slots@ =~= old(self).slots@.update(
                slot as int,
                StrategySlot { last_emit: Some(at), ..old(self).slots@[slot as int] },
            ));
        }
        cooled
    }

    /// Records that the strategy in `slot` failed at the current tick. The
    /// failures that no longer count are forgotten. With as many failures
    /// that count as the budget allows, the strategy is quarantined; whether
    /// it was quarantined by this failure is the result.
    pub fn record_failure(&mut self, slot: usize) -> (r: bool)
        requires
            slot < old(self).slots@.len(),
        ensures
            old(self).failure_recorded(*final(self), slot as int, r),
    {
        let tick = self.tick;
        let window = self.failure_window;
        let mut recent: Vec<u64> = Vec::new();
        let ghost all = self.slots@[slot as int].failure_ticks@.push(tick);
        let ghost flags = counting(all, tick, window);
        let mut i: usize = 0;
        while i < self.slots[slot].failure_ticks.len()
            invariant
                slot < self.slots@.len(),
                self.slots == old(self).slots,
                i <= self.slots@[slot as int].failure_ticks@.len(),
                all == self.slots@[slot as int].failure_ticks@.push(tick),
                flags == counting(all, tick, window),
                recent@.len() == picked(flags, i as int).len(),
                forall|k: int|
                    0 <= k < recent@.len() ==> 0 <= #[trigger] picked(flags, i as int)[k] < i,
                forall|k: int|
                    0 <= k < recent@.len() ==> #[trigger] recent@[k] == all[picked(
                        flags,
                        i as int,
                    )[k]],
            decreases self.slots@[slot as int].failure_ticks@.len() - i,
        {
            let failed = self.slots[slot].failure_ticks[i];
            let ghost earlier = recent@;
            let ghost chosen = picked(flags, i as int);
            assert(all[i as int] == failed);
            assert(flags[i as int] == counts(failed, tick, window));
            if (tick as i128) - (failed as i128) < window as i128 {
                recent.push(failed);
            }
            i += 1;
            proof {
                assert forall|k: int| 0 <= k < recent@.len() implies 0 <= #[trigger] picked(
                    flags,
                    i as int,
                )[k] < i && recent@[k] == all[picked(flags, i as int)[k]] by {
                    if k < earlier.len() {
                        assert(recent@[k] == earlier[k]);
                        assert(picked(flags, i as int)[k] == chosen[k]);
                    }
                }
            }
        }
        // The failure of this tick comes last.
        let ghost earlier = recent@;
        let ghost chosen = picked(flags, i as int);
        assert(all[i as int] == tick);
        assert(flags[i as int] == counts(tick, tick, window));
        if window > 0 {
            recent.push(tick);
        }
        proof {
            let n = all.len() as int;
            assert(n == i + 1);
            assert forall|k: int| 0 <= k < recent@.len() implies 0 <= #[trigger] picked(flags, n)[k]
                < n && recent@[k] == all[picked(flags, n)[k]] by {
                if k < earlier.len() {
                    assert(recent@[k] == earlier[k]);
                    assert(picked(flags, n)[k] == chosen[k]);
                }
            }
        }
        let was = self.slots[slot].quarantined;
        let now_quarantined = was || recent.len() >= self.max_failures;
        self.slots[slot].failure_ticks = recent;
        self.slots[slot].quarantined = now_quarantined;
        let newly = !was && now_quarantined;
        if newly {
            self.quarantined_count = saturating_add(self.quarantined_count, 1);
        }
        newly
    }
}

/// What a strategy made of a tick.
#[derive(Debug)]
pub enum Observation {
    /// The strategy has no signal for the tick.
    Nothing,
    /// The strategy has this signal for the tick.
    Signal(TradingSignal),
    /// The strategy failed on the tick.
    Failed,
}

/// A strategy: a value that has a kind and makes at most one signal of a
/// tick, of its own kind and for the symbol of the tick.
pub trait Strategy {
    /// The kind of the strategy.
    spec fn kind_of(&self) -> StrategyType;

    /// The kind of the strategy.
    fn kind(&self) -> (r: StrategyType)
        ensures
            r == self.kind_of(),
    ;

    /// What the strategy makes of `tick`.
    fn observe(&mut self, tick: &MarketData) -> (r: Observation)
        ensures
            final(self).kind_of() == old(self).kind_of(),
            r matches Observation::Signal(signal) ==> signal.strategy_type == old(self).kind_of()
                && signal.symbol@ == tick.symbol@,
    ;
}

impl Strategy for StrategyEngine {
    open spec fn kind_of(&self) -> StrategyType {
        StrategyType::TokenSniping
    }

    fn kind(&self) -> (r: StrategyType) {
        StrategyType::TokenSniping
    }

    /// What the sniping rule makes of `tick`: its signal where the rule
    /// applies to the tick, and nothing where it does not. The engine stays
    /// as it is, and never fails.
    fn observe(&mut self, tick: &MarketData) -> (r: Observation)
        ensures
            *final(self) == *old(self),
            match r {
                Observation::Signal(signal) => {
                    &&& snipe_applies(*tick)
                    &&& signal.symbol == tick.symbol
                    &&& signal.action == TradeAction::Buy
                    &&& signal.quantity == SNIPE_QUANTITY
                    &&& signal.target_price as int == snipe_target(*tick)
                    &&& signal.confidence as int == snipe_confidence(*tick)
                    &&& signal.strategy_type == StrategyType::TokenSniping
                    &&& signal.signal_id@.len() == 36
                },
                Observation::Nothing => !snipe_applies(*tick),
                Observation::Failed => false,
            },
    {
        match self.process_market_data(tick.clone()) {
            Some(signal) => Observation::Signal(signal),
            None => Observation::Nothing,
        }
    }
}

impl StrategyRuntime {
    /// Whether `after` is this runtime once the strategy in `slot` emitted
    /// a signal stamped `at`: the strategy last emitted at `at`, and nothing
    /// else has changed.
    pub open spec fn emitted(&self, after: StrategyRuntime, slot: int, at: i64) -> bool {
        &&& after.slots@ == self.slots@.update(
            slot,
            StrategySlot { last_emit: Some(at), ..self.slots@[slot] },
        )
        &&& after.cooldown_ms == self.cooldown_ms
        &&& after.max_failures == self.max_failures
        &&& after.failure_window == self.failure_window
        &&& after.tick == self.tick
        &&& after.quarantined_count == self.quarantined_count
    }

    /// Whether `after` and `waiting` are the runtime and the signals that
    /// wait once `observation` was taken from the strategy in `slot`, with
    /// `pending` waiting before, and `r` says whether a signal was added. A
    /// quarantined strategy is handed no ticks, so whatever it is said to
    /// have made is ignored. A failure is recorded against the error
    /// budget. A signal is put among the signals that wait, at its place, if
    /// the cooldown of the strategy has passed; else it is dropped.
    pub open spec fn takes(
        &self,
        pending: Seq<PendingSignal>,
        after: StrategyRuntime,
        waiting: Seq<PendingSignal>,
        slot: int,
        observation: Observation,
        r: bool,
    ) -> bool {
        if self.slots@[slot].quarantined {
            !r && after == *self && waiting == pending
        } else {
            match observation {
                Observation::Nothing => !r && after == *self && waiting == pending,
                Observation::Failed => !r && waiting == pending && exists|newly: bool| #[trigger]
                    self.failure_recorded(after, slot, newly),
                Observation::Signal(signal) => {
                    let item = PendingSignal { priority: self.slots@[slot].priority, signal };
                    if self.may_emit(slot, signal.timestamp) {
                        &&& r
                        &&& waiting == pending.insert(place_of(pending, item), item)
                        &&& self.emitted(after, slot, signal.timestamp)
                    } else {
                        !r && after == *self && waiting == pending
                    }
                },
            }
        }
    }

    /// Takes what the strategy in `slot` made of the tick. The result says
    /// whether a signal was put among those that wait, which stay in order.
    pub fn take_observation(
        &mut self,
        pending: &mut Vec<PendingSignal>,
        slot: usize,
        observation: Observation,
    ) -> (r: bool)
        requires
            slot < old(self).slots@.len(),
        ensures
            old(self).takes(
                old(pending)@,
                *final(self),
                final(pending)@,
                slot as int,
                observation,
                r,
            ),
            in_order(old(pending)@) ==> in_order(final(pending)@),
    {
        if self.slots[slot].quarantined {
            return false;
        }
        match observation {
            Observation::Nothing => false,
            Observation::Failed => {
                let newly = self.record_failure(slot);
                assert(old(self).failure_recorded(*self, slot as int, newly));
                false
            },
            Observation::Signal(signal) => {
                if self.allow_emit(slot, signal.timestamp) {
                    let priority = self.slots[slot].priority;
                    merge_signal(pending, PendingSignal { priority, signal });
                    true
                } else {
                    false
                }
            },
        }
    }

    /// Hands `tick` to the strategy in `slot`, unless it is quarantined,
    /// and takes what the strategy makes of it. The result says whether a
    /// signal was put among those that wait.
    pub fn observe<S: Strategy>(
        &mut self,
        pending: &mut Vec<PendingSignal>,
        slot: usize,
        strategy: &mut S,
        tick: &MarketData,
    ) -> (r: bool)
        requires
            slot < old(self).slots@.len(),
        ensures
            final(strategy).kind_of() == old(strategy).kind_of(),
            in_order(old(pending)@) ==> in_order(final(pending)@),
            old(self).slots@[slot as int].quarantined ==> {
                &&& !r
                &&& *final(strategy) == *old(strategy)
                &&& *final(self) == *old(self)
                &&& final(pending)@ == old(pending)@
            },
            exists|observation: Observation|
                {
                    &&& #[trigger] old(self).takes(
                        old(pending)@,
                        *final(self),
                        final(pending)@,
                        slot as int,
                        observation,
                        r,
                    )
                    &&& observation matches Observation::Signal(signal) ==> signal.strategy_type
                        == old(strategy).kind_of() && signal.symbol@ == tick.symbol@
                },
    {
        if !self.receives_ticks(slot) {
            assert(old(self).takes(
                old(pending)@,
                *self,
                pending@,
                slot as int,
                Observation::Nothing,
                false,
            ));
            return false;
        }
        let observation = strategy.observe(tick);
        let r = self.take_observation(pending, slot, observation);
        assert(old(self).takes(old(pending)@, *self, pending@, slot as int, observation, r));
        r
    }
}

/// Puts `item` among the signals that wait, at its place: after all that
/// are not emitted after it. Signals that were in order stay in order.
pub fn merge_signal(pending: &mut Vec<PendingSignal>, item: PendingSignal)
    ensures
        final(pending)@ == old(pending)@.insert(place_of(old(pending)@, item), item),
        in_order(old(pending)@) ==> in_order(final(pending)@),
{
    let mut at: usize = 0;
    proof {
        assert(pending@.skip(0) =~= pending@);
    }
    while at < pending.len() && !(item.priority < pending[at].priority || (item.priority
        == pending[at].priority && item.signal.timestamp < pending[at].signal.timestamp))
        invariant
            at <= pending@.len(),
            pending@ == old(pending)@,
            place_of(pending@, item) == at + place_of(pending@.skip(at as int), item),
        decreases pending.len() - at,
    {
        proof {
            assert(pending@.skip(at as int)[0] == pending@[at as int]);
            assert(pending@.skip(at as int).drop_first() =~= pending@.skip(at + 1));
        }
        at += 1;
    }
    proof {
        if at < pending.len() {
            assert(pending@.skip(at as int)[0] == pending@[at as int]);
        }
        if in_order(pending@) {
            lemma_insert_keeps_order(pending@, item);
        }
    }
    pending.insert(at, item);
}

} // verus!
