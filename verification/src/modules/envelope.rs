//! The risk envelopes of the wallets: reservations against a wallet's
//! exposure, their release or conversion into positions, the daily
//! counters, and the emergency halt.

use vstd::prelude::*;
use crate::fixed::{lemma_product_fits, scaled_product, wide_scaled_product, HUNDRED_PERCENT, SCALE};
use crate::modules::executor::{ExecutionResult, ExecutionStatus};
use crate::fixed::{saturating_add, saturating_sum};
use crate::modules::strategy::{StrategyType, TradeAction};
use crate::modules::wallet_manager::{
    metrics_ids, wallet_ids, within_bounds, MetricsSnapshot, Position, WalletConfig,
    WalletManager, WalletMetrics, WalletRiskLimits, WalletStatus,
};
use crate::lists::{index_in, lemma_index_in, lemma_index_in_is};
use crate::text::same_text;

verus! {

/// A provisional charge against the exposure of a wallet. The notional
/// value is in millionths.
#[derive(Debug)]
pub struct Reservation {
    pub token: u64,
    pub wallet_id: String,
    pub symbol: String,
    pub strategy_type: StrategyType,
    pub side: TradeAction,
    pub notional: u64,
    pub active: bool,
}

/// Why a reservation was refused.
#[derive(Debug, Clone, Copy, PartialEq, Eq, Structural)]
pub enum ReserveRejection {
    /// The wallet is not in the registry, or has no metrics.
    UnknownWallet,
    /// The wallet's loss of the day has reached its limit.
    DailyLossBreached,
    /// The reservation would take the wallet's exposure above its limit.
    ExposureBreached,
    /// The wallet has as many positions and reservations as it may have
    /// positions.
    PositionCountBreached,
    /// The wallet has made as many trades today as it may.
    TradeCapBreached,
    /// There is no token left to give.
    TokensExhausted,
}

/// What became of a result that was applied to the envelopes.
#[derive(Debug, Clone, Copy, PartialEq, Eq, Structural)]
pub enum Applied {
    /// There is no active reservation under the token; nothing changed.
    NoReservation,
    /// The result is pending; the reservation stays.
    StillPending,
    /// The trade did not happen; the reservation was released.
    Released,
    /// The trade happened; the reservation became a position.
    Converted,
}

/// The number of milliseconds in a day.
pub const DAY_MS: i64 = 86_400_000;

/// A value held to what 64 bits can hold.
pub open spec fn capped(value: int) -> int {
    if value > u64::MAX {
        u64::MAX as int
    } else {
        value
    }
}

/// The notional value of a position at its entry price, held to 64 bits.
pub open spec fn position_notional(position: Position) -> int {
    capped(scaled_product(position.quantity as int, position.entry_price as int))
}

/// The exposure of the wallet `id` through the first `n` positions: the sum
/// of their notional values, held to 64 bits.
pub open spec fn exposure_of(positions: Seq<Position>, id: Seq<char>, n: int) -> int
    decreases n,
{
    if n <= 0 {
        0
    } else if positions[n - 1].wallet_id@ == id {
        capped(exposure_of(positions, id, n - 1) + position_notional(positions[n - 1]))
    } else {
        exposure_of(positions, id, n - 1)
    }
}

/// The number of the first `n` positions that belong to the wallet `id`,
/// held to 64 bits.
pub open spec fn position_count(positions: Seq<Position>, id: Seq<char>, n: int) -> int
    decreases n,
{
    if n <= 0 {
        0
    } else if positions[n - 1].wallet_id@ == id {
        capped(position_count(positions, id, n - 1) + 1)
    } else {
        position_count(positions, id, n - 1)
    }
}

/// The value that the first `n` reservations hold against the wallet `id`:
/// the sum of the notional values of those that are active, held to 64
/// bits.
pub open spec fn reserved_of(reservations: Seq<Reservation>, id: Seq<char>, n: int) -> int
    decreases n,
{
    if n <= 0 {
        0
    } else if reservations[n - 1].active && reservations[n - 1].wallet_id@ == id {
        capped(reserved_of(reservations, id, n - 1) + reservations[n - 1].notional)
    } else {
        reserved_of(reservations, id, n - 1)
    }
}

/// The number of the first `n` reservations that are active and against the
/// wallet `id`, held to 64 bits.
pub open spec fn reservation_count(reservations: Seq<Reservation>, id: Seq<char>, n: int) -> int
    decreases n,
{
    if n <= 0 {
        0
    } else if reservations[n - 1].active && reservations[n - 1].wallet_id@ == id {
        capped(reservation_count(reservations, id, n - 1) + 1)
    } else {
        reservation_count(reservations, id, n - 1)
    }
}

/// The largest exposure that a wallet may have: the exposure percentage of
/// its limits, of its total value.
pub open spec fn exposure_limit(limits: WalletRiskLimits, total_value: u64) -> int {
    (total_value as int * limits.max_exposure_percentage as int) / (HUNDRED_PERCENT as int)
}

/// The share of its exposure limit that a wallet uses, as a percentage of
/// at most a hundred: all of it where the exposure is at or above the
/// limit, or where the limit is nothing and there is exposure.
pub open spec fn utilization(exposure: int, limit: int) -> int {
    if limit <= 0 {
        if exposure <= 0 {
            0
        } else {
            HUNDRED_PERCENT as int
        }
    } else if (exposure * (HUNDRED_PERCENT as int)) / limit > HUNDRED_PERCENT {
        HUNDRED_PERCENT as int
    } else {
        (exposure * (HUNDRED_PERCENT as int)) / limit
    }
}

/// Whether a loss of the day has reached the limit: the profit of the day
/// is at or below the negated limit.
pub open spec fn loss_breached(daily_pnl: i64, max_daily_loss: u64) -> bool {
    daily_pnl <= -(max_daily_loss as int)
}

/// The day on which a time falls: the whole days since the Unix epoch, in
/// UTC.
pub open spec fn day_of(now: i64) -> int {
    now as int / (DAY_MS as int)
}

/// `a` less `b`, held to what a signed number of 64 bits can hold.
pub open spec fn lowered_by(a: i64, b: u64) -> i64 {
    if a - b < i64::MIN {
        i64::MIN
    } else {
        (a - b) as i64
    }
}

/// `a` plus `b`, held to what a signed number of 64 bits can hold.
pub open spec fn moved_by(a: i64, b: i64) -> i64 {
    if a + b < i64::MIN {
        i64::MIN
    } else if a + b > i64::MAX {
        i64::MAX
    } else {
        (a + b) as i64
    }
}

/// The position of the first active reservation under `token`, if there is
/// one.
pub open spec fn active_at(reservations: Seq<Reservation>, token: u64) -> Option<int>
    decreases reservations.len(),
{
    if reservations.len() == 0 {
        None
    } else {
        match active_at(reservations.drop_last(), token) {
            Some(i) => Some(i),
            None => if reservations.last().token == token && reservations.last().active {
                Some(reservations.len() - 1)
            } else {
                None
            },
        }
    }
}

/// The first active reservation under a token is active and under the
/// token, with none before it; without one, no reservation is both.
pub proof fn lemma_active_at(reservations: Seq<Reservation>, token: u64)
    ensures
        match active_at(reservations, token) {
            Some(i) => {
                &&& 0 <= i < reservations.len()
                &&& reservations[i].token == token
                &&& reservations[i].active
                &&& forall|j: int|
                    0 <= j < i ==> !((#[trigger] reservations[j]).token == token
                        && reservations[j].active)
            },
            None => forall|j: int|
                0 <= j < reservations.len() ==> !((#[trigger] reservations[j]).token == token
                    && reservations[j].active),
        },
    decreases reservations.len(),
{
    if reservations.len() > 0 {
        lemma_active_at(reservations.drop_last(), token);
        match active_at(reservations.drop_last(), token) {
            Some(i) => {
                assert(reservations.drop_last()[i] == reservations[i]);
                assert forall|j: int| 0 <= j < i implies !((#[trigger] reservations[j]).token
                    == token && reservations[j].active) by {
                    assert(reservations.drop_last()[j] == reservations[j]);
                }
            },
            None => {
                assert forall|j: int| 0 <= j < reservations.len() - 1 implies !((
                #[trigger] reservations[j]).token == token && reservations[j].active) by {
                    assert(reservations.drop_last()[j] == reservations[j]);
                }
            },
        }
    }
}

/// The reservations after the one under `token` was released: the first
/// active reservation under the token is no longer active; all else is as
/// it was.
pub open spec fn released(reservations: Seq<Reservation>, token: u64) -> Seq<Reservation> {
    match active_at(reservations, token) {
        Some(i) => reservations.update(i, Reservation { active: false, ..reservations[i] }),
        None => reservations,
    }
}

/// Releasing a reservation a second time changes nothing, as long as no two
/// active reservations share a token.
pub proof fn lemma_release_idempotent(reservations: Seq<Reservation>, token: u64)
    requires
        forall|i: int, j: int|
            0 <= i < j < reservations.len() && reservations[i].active && reservations[j].active
                ==> reservations[i].token != reservations[j].token,
    ensures
        released(released(reservations, token), token) == released(reservations, token),
{
    lemma_active_at(reservations, token);
    let once = released(reservations, token);
    lemma_active_at(once, token);
    match active_at(once, token) {
        Some(j) => {
            match active_at(reservations, token) {
                Some(i) => {
                    assert(once[j] == reservations[j]);
                },
                None => {},
            }
        },
        None => {},
    }
}

/// What a snapshot shows of the wallet `id`: the numbers of its metrics and
/// its limits, where the wallet is in the registry and has metrics.
pub open spec fn shown(manager: WalletManager, id: Seq<char>) -> Option<
    (MetricsSnapshot, WalletRiskLimits),
> {
    match (manager.position(id), manager.metrics_of(id)) {
        (Some(i), Some(m)) => Some((m.numbers(), manager.wallets@[i].risk_limits)),
        _ => None,
    }
}

/// The state of the envelopes: the reservations, the next token, the
/// emergency halt, the current day, and the share of wallets in emergency
/// mode, a fraction in millionths, at which the engine halts.
#[derive(Debug)]
pub struct EnvelopeState {
    pub reservations: Vec<Reservation>,
    pub next_token: u64,
    pub halted: bool,
    pub current_day: i64,
    pub emergency_stop_threshold: u64,
}

/// The number of wallets in emergency mode among the first `n`.
pub open spec fn emergency_count(wallets: Seq<WalletConfig>, n: int) -> int
    decreases n,
{
    if n <= 0 {
        0
    } else {
        emergency_count(wallets, n - 1) + if wallets[n - 1].status == WalletStatus::Emergency {
            1int
        } else {
            0
        }
    }
}

/// Whether so many of the wallets are in emergency mode that the engine
/// halts: there are wallets, and the share of those in emergency mode is at
/// least the threshold.
pub open spec fn halt_due(wallets: Seq<WalletConfig>, threshold: u64) -> bool {
    wallets.len() > 0 && emergency_count(wallets, wallets.len() as int) * SCALE >= threshold
        * wallets.len()
}

impl EnvelopeState {
    /// The state is well formed when every reservation has a token below
    /// the next one and no two reservations share a token.
    pub open spec fn well_formed(&self) -> bool {
        &&& forall|i: int|
            0 <= i < self.reservations@.len() ==> (#[trigger] self.reservations@[i]).token
                < self.next_token
        &&& forall|i: int, j: int|
            0 <= i < j < self.reservations@.len() ==> self.reservations@[i].token
                != self.reservations@[j].token
    }

    /// Envelopes without reservations, not halted, on the day of `now`.
    pub fn new(emergency_stop_threshold: u64, now: i64) -> (r: Self)
        ensures
            r.reservations@.len() == 0,
            r.next_token == 0,
            !r.halted,
            r.current_day as int == day_of(now),
            r.emergency_stop_threshold == emergency_stop_threshold,
            r.well_formed(),
    {
        EnvelopeState {
            reservations: Vec::new(),
            next_token: 0,
            halted: false,
            current_day: day_number(now),
            emergency_stop_threshold,
        }
    }

    /// The metrics and the limits of the wallet `wallet_id`.
    pub fn snapshot(&self, manager: &WalletManager, wallet_id: &str) -> (r: Option<
        (MetricsSnapshot, WalletRiskLimits),
    >)
        ensures
            r == shown(*manager, wallet_id@),
    {
        match (manager.find_wallet(wallet_id), manager.find_metrics(wallet_id)) {
            (Some(i), Some(m)) => Some(
                (manager.wallet_metrics[m].snapshot(), manager.wallets[i].risk_limits),
            ),
            _ => None,
        }
    }

    /// The exposure of the wallet `wallet_id` through its open positions.
    pub fn exposure(&self, manager: &WalletManager, wallet_id: &str) -> (r: u64)
        ensures
            r as int == exposure_of(
                manager.active_positions@,
                wallet_id@,
                manager.active_positions@.len() as int,
            ),
    {
        let mut total: u64 = 0;
        let mut i: usize = 0;
        while i < manager.active_positions.len()
            invariant
                i <= manager.active_positions@.len(),
                total as int == exposure_of(manager.active_positions@, wallet_id@, i as int),
            decreases manager.active_positions.len() - i,
        {
            let position = &manager.active_positions[i];
            if same_text(position.wallet_id.as_str(), wallet_id) {
                let wide = wide_scaled_product(position.quantity, position.entry_price);
                let notional: u64 = if wide > u64::MAX as u128 {
                    u64::MAX
                } else {
                    wide as u64
                };
                total = saturating_add(total, notional);
            }
            i += 1;
        }
        total
    }

    /// The number of open positions of the wallet `wallet_id`.
    pub fn open_positions(&self, manager: &WalletManager, wallet_id: &str) -> (r: u64)
        ensures
            r as int == position_count(
                manager.active_positions@,
                wallet_id@,
                manager.active_positions@.len() as int,
            ),
    {
        let mut total: u64 = 0;
        let mut i: usize = 0;
        while i < manager.active_positions.len()
            invariant
                i <= manager.active_positions@.len(),
                total as int == position_count(manager.active_positions@, wallet_id@, i as int),
            decreases manager.active_positions.len() - i,
        {
            if same_text(manager.active_positions[i].wallet_id.as_str(), wallet_id) {
                total = saturating_add(total, 1);
            }
            i += 1;
        }
        total
    }

    /// The value and the number of the active reservations against the
    /// wallet `wallet_id`.
    pub fn reserved(&self, wallet_id: &str) -> (r: (u64, u64))
        ensures
            r.0 as int == reserved_of(
                self.reservations@,
                wallet_id@,
                self.reservations@.len() as int,
            ),
            r.1 as int == reservation_count(
                self.reservations@,
                wallet_id@,
                self.reservations@.len() as int,
            ),
    {
        let mut total: u64 = 0;
        let mut count: u64 = 0;
        let mut i: usize = 0;
        while i < self.reservations.len()
            invariant
                i <= self.reservations@.len(),
                total as int == reserved_of(self.reservations@, wallet_id@, i as int),
                count as int == reservation_count(self.reservations@, wallet_id@, i as int),
            decreases self.reservations.len() - i,
        {
            let reservation = &self.reservations[i];
            if reservation.active && same_text(reservation.wallet_id.as_str(), wallet_id) {
                total = saturating_add(total, reservation.notional);
                count = saturating_add(count, 1);
            }
            i += 1;
        }
        (total, count)
    }

    /// What stands against reserving `notional` against the wallet
    /// `wallet_id`, if anything does. The checks come in this order: the
    /// wallet and its metrics are known; its loss of the day has not reached
    /// its limit; its exposure with its reservations and this one stays
    /// within its limit; its positions and reservations are fewer than the
    /// positions it may have; its trades of the day are fewer than it may
    /// make; a token is left.
    pub open spec fn refusal(&self, manager: WalletManager, wallet_id: Seq<char>, notional: u64)
        -> Option<ReserveRejection> {
        match (manager.position(wallet_id), manager.metrics_of(wallet_id)) {
            (Some(i), Some(m)) => {
                let limits = manager.wallets@[i].risk_limits;
                let positions = manager.active_positions@;
                let held = self.reservations@;
                if loss_breached(m.daily_pnl, limits.max_daily_loss) {
                    Some(ReserveRejection::DailyLossBreached)
                } else if exposure_of(positions, wallet_id, positions.len() as int) + reserved_of(
                    held,
                    wallet_id,
                    held.len() as int,
                ) + notional > exposure_limit(limits, m.total_value_usd) {
                    Some(ReserveRejection::ExposureBreached)
                } else if position_count(positions, wallet_id, positions.len() as int)
                    + reservation_count(held, wallet_id, held.len() as int)
                    >= limits.max_concurrent_positions {
                    Some(ReserveRejection::PositionCountBreached)
                } else if m.trade_count_today >= limits.daily_trade_limit {
                    Some(ReserveRejection::TradeCapBreached)
                } else if self.next_token == u64::MAX {
                    Some(ReserveRejection::TokensExhausted)
                } else {
                    None
                }
            },
            _ => Some(ReserveRejection::UnknownWallet),
        }
    }

    /// Whether `after` is the state once `notional` was to be reserved
    /// against the wallet `wallet_id`, with the outcome `r`: where something
    /// stands against it, the reason and no change; else the next token and
    /// one more reservation, which is active.
    pub open spec fn reserves(
        &self,
        manager: WalletManager,
        after: EnvelopeState,
        wallet_id: Seq<char>,
        symbol: Seq<char>,
        strategy_type: StrategyType,
        side: TradeAction,
        notional: u64,
        r: Result<u64, ReserveRejection>,
    ) -> bool {
        match self.refusal(manager, wallet_id, notional) {
            Some(reason) => r == Err::<u64, ReserveRejection>(reason) && after.reservations == self.reservations && after.next_token == self.next_token,
            None => {
                &&& r == Ok::<u64, ReserveRejection>(self.next_token)
                &&& after.next_token == self.next_token + 1
                &&& after.reservations@.len() == self.reservations@.len() + 1
                &&& after.reservations@.drop_last() == self.reservations@
                &&& after.reservations@.last().token == self.next_token
                &&& after.reservations@.last().wallet_id@ == wallet_id
                &&& after.reservations@.last().symbol@ == symbol
                &&& after.reservations@.last().strategy_type == strategy_type
                &&& after.reservations@.last().side == side
                &&& after.reservations@.last().notional == notional
                &&& after.reservations@.last().active
            },
        }
    }

    /// Reserves `notional` against the wallet `wallet_id` for a trade in
    /// `symbol`, and gives the token of the reservation; or refuses, and
    /// changes nothing.
    pub fn reserve(
        &mut self,
        manager: &WalletManager,
        wallet_id: &str,
        symbol: &str,
        strategy_type: StrategyType,
        side: TradeAction,
        notional: u64,
    ) -> (r: Result<u64, ReserveRejection>)
        requires
            old(self).well_formed(),
            manager.well_formed(),
        ensures
            final(self).well_formed(),
            final(self).halted == old(self).halted,
            final(self).current_day == old(self).current_day,
            final(self).emergency_stop_threshold == old(self).emergency_stop_threshold,
            old(self).reserves(
                *manager,
                *final(self),
                wallet_id@,
                symbol@,
                strategy_type,
                side,
                notional,
                r,
            ),
    {
        let (at, metrics_at) = match (
            manager.find_wallet(wallet_id),
            manager.find_metrics(wallet_id),
        ) {
            (Some(i), Some(m)) => (i, m),
            _ => {
                return Err(ReserveRejection::UnknownWallet);
            },
        };
        let limits = manager.wallets[at].risk_limits;
        let metrics = &manager.wallet_metrics[metrics_at];
        if (metrics.daily_pnl as i128) <= -(limits.max_daily_loss as i128) {
            return Err(ReserveRejection::DailyLossBreached);
        }
        let exposure = self.exposure(manager, wallet_id);
        let (held, held_count) = self.reserved(wallet_id);
        proof {
            lemma_product_fits(metrics.total_value_usd, limits.max_exposure_percentage);
        }
        let limit: u128 = (metrics.total_value_usd as u128) * (
        limits.max_exposure_percentage as u128) / (HUNDRED_PERCENT as u128);
        if exposure as u128 + held as u128 + notional as u128 > limit {
            return Err(ReserveRejection::ExposureBreached);
        }
        let positions = self.open_positions(manager, wallet_id);
        if positions as u128 + held_count as u128 >= limits.max_concurrent_positions as u128 {
            return Err(ReserveRejection::PositionCountBreached);
        }
        if metrics.trade_count_today >= limits.daily_trade_limit {
            return Err(ReserveRejection::TradeCapBreached);
        }
        if self.next_token == u64::MAX {
            return Err(ReserveRejection::TokensExhausted);
        }
        let token = self.next_token;
        let ghost before = self.reservations@;
        self.reservations.push(
            Reservation {
                token,
                wallet_id: String::from_str(wallet_id),
                symbol: String::from_str(symbol),
                strategy_type,
                side,
                notional,
                active: true,
            },
        );
        self.next_token = token + 1;
        proof {
            assert(self.reservations@.drop_last() =~= before);
            assert forall|i: int| 0 <= i < self.reservations@.len() implies (
            #[trigger] self.reservations@[i]).token < self.next_token by {
                if i < before.len() {
                    assert(self.reservations@[i] == before[i]);
                }
            }
            assert forall|i: int, j: int|
                0 <= i < j < self.reservations@.len() implies self.reservations@[i].token
                != self.reservations@[j].token by {
                assert(self.reservations@[i] == before[i]);
                if j < before.len() {
                    assert(self.reservations@[j] == before[j]);
                }
            }
        }
        Ok(token)
    }

    /// The position of the active reservation under `token`.
    pub fn find_active(&self, token: u64) -> (r: Option<usize>)
        ensures
            match r {
                Some(i) => active_at(self.reservations@, token) == Some(i as int) && i
                    < self.reservations@.len(),
                None => active_at(self.reservations@, token) is None,
            },
    {
        let mut i: usize = 0;
        while i < self.reservations.len()
            invariant
                i <= self.reservations@.len(),
                forall|j: int|
                    0 <= j < i ==> !((#[trigger] self.reservations@[j]).token == token
                        && self.reservations@[j].active),
            decreases self.reservations.len() - i,
        {
            if self.reservations[i].token == token && self.reservations[i].active {
                proof {
                    lemma_active_at(self.reservations@, token);
                }
                return Some(i);
            }
            i += 1;
        }
        proof {
            lemma_active_at(self.reservations@, token);
        }
        None
    }

    /// Whether `after` is the state once the reservation under `token` was
    /// released: the reservation is no longer active, and nothing else has
    /// changed.
    pub open spec fn releases(&self, after: EnvelopeState, token: u64) -> bool {
        &&& after.reservations@ == released(self.reservations@, token)
        &&& after.next_token == self.next_token
        &&& after.halted == self.halted
        &&& after.current_day == self.current_day
        &&& after.emergency_stop_threshold == self.emergency_stop_threshold
    }

    /// Releases the reservation under `token`. A token without an active
    /// reservation changes nothing, so releasing twice is releasing once.
    pub fn release(&mut self, token: u64)
        requires
            old(self).well_formed(),
        ensures
            final(self).well_formed(),
            old(self).releases(*final(self), token),
            active_at(final(self).reservations@, token) is None,
    {
        match self.find_active(token) {
            Some(i) => {
                self.reservations[i].active = false;
                proof {
                    let before = old(self).reservations@;
                    assert(self.reservations@ =~= before.update(
                        i as int,
                        Reservation { active: false, ..before[i as int] },
                    ));
                    lemma_active_at(self.reservations@, token);
                    lemma_active_at(before, token);
                    match active_at(self.reservations@, token) {
                        Some(j) => {
                            assert(self.reservations@[j].token == before[i as int].token);
                            if j != i {
                                assert(self.reservations@[j] == before[j]);
                            }
                        },
                        None => {},
                    }
                }
            },
            None => {},
        }
    }

    /// Clears the emergency halt. This is for an operator to call.
    pub fn clear_halt(&mut self)
        ensures
            *final(self) == (EnvelopeState { halted: false, ..*old(self) }),
    {
        self.halted = false;
    }
}

/// The day on which `now` falls.
pub fn day_number(now: i64) -> (r: i64)
    ensures
        r as int == day_of(now),
{
    if now >= 0 {
        now / DAY_MS
    } else {
        let back: i64 = -(now + 1);
        let q: i64 = back / DAY_MS;
        proof {
            let d = DAY_MS as int;
            let k = (back as int) % d;
            assert(back as int == (back as int / d) * d + k) by {
                vstd::arithmetic::div_mod::lemma_fundamental_div_mod(back as int, d);
            }
            assert(0 <= k < d) by {
                vstd::arithmetic::div_mod::lemma_mod_bound(back as int, d);
            }
            assert(now as int == (-(q as int) - 1) * d + (d - 1 - k)) by (nonlinear_arith)
                requires
                    back as int == (q as int) * d + k,
                    back as int == -(now as int) - 1,
            ;
            vstd::arithmetic::div_mod::lemma_fundamental_div_mod_converse(
                now as int,
                d,
                -(q as int) - 1,
                d - 1 - k,
            );
        }
        -q - 1
    }
}


/// `n` plus one, unless `n` is the largest number of 32 bits.
pub open spec fn bumped32(n: u32) -> u32 {
    if n < u32::MAX {
        (n + 1) as u32
    } else {
        n
    }
}

/// The metrics of a wallet after a trade at `at` that cost `fees`, with the
/// risk utilization `risk_utilization`, as of `now`: one more trade today,
/// the fees taken from the profit of the day and from the total profit.
pub open spec fn traded(
    m: WalletMetrics,
    fees: u64,
    at: i64,
    risk_utilization: u64,
    now: i64,
) -> WalletMetrics {
    WalletMetrics {
        daily_pnl: lowered_by(m.daily_pnl, fees),
        total_pnl: lowered_by(m.total_pnl, fees),
        trade_count_today: bumped32(m.trade_count_today),
        last_trade_time: Some(at),
        risk_utilization,
        updated_at: now,
        ..m
    }
}

/// The metrics of a wallet after its profit changed by `change`, as of
/// `now`.
pub open spec fn credited(m: WalletMetrics, change: i64, now: i64) -> WalletMetrics {
    WalletMetrics {
        daily_pnl: moved_by(m.daily_pnl, change),
        total_pnl: moved_by(m.total_pnl, change),
        updated_at: now,
        ..m
    }
}

/// The metrics of a wallet at the start of a day: no profit and no trade
/// yet.
pub open spec fn day_started(m: WalletMetrics) -> WalletMetrics {
    WalletMetrics { daily_pnl: 0, trade_count_today: 0, ..m }
}

/// Whether `position` is the position that the confirmed result `result`
/// opens for the reservation `reservation`.
pub open spec fn is_opened(position: Position, reservation: Reservation, result: ExecutionResult)
    -> bool {
    &&& position.position_id@ == result.transaction_id@
    &&& position.wallet_id@ == reservation.wallet_id@
    &&& position.symbol@ == reservation.symbol@
    &&& position.strategy_type == reservation.strategy_type
    &&& position.action == reservation.side
    &&& position.quantity == result.executed_quantity
    &&& position.entry_price == result.executed_price
    &&& position.current_price == result.executed_price
    &&& position.unrealized_pnl == 0
    &&& position.opened_at == result.timestamp
    &&& position.updated_at == result.timestamp
}

/// `a` less `b`, held to what a signed number of 64 bits can hold.
pub fn lower_by(a: i64, b: u64) -> (r: i64)
    ensures
        r == lowered_by(a, b),
{
    let wide: i128 = a as i128 - b as i128;
    if wide < i64::MIN as i128 {
        i64::MIN
    } else {
        wide as i64
    }
}

/// `a` plus `b`, held to what a signed number of 64 bits can hold.
pub fn move_by(a: i64, b: i64) -> (r: i64)
    ensures
        r == moved_by(a, b),
{
    let wide: i128 = a as i128 + b as i128;
    if wide < i64::MIN as i128 {
        i64::MIN
    } else if wide > i64::MAX as i128 {
        i64::MAX
    } else {
        wide as i64
    }
}

/// The share of the exposure limit that `exposure` uses.
pub fn utilization_of(exposure: u64, limits: &WalletRiskLimits, total_value: u64) -> (r: u64)
    ensures
        r as int == utilization(exposure as int, exposure_limit(*limits, total_value)),
{
    proof {
        lemma_product_fits(total_value, limits.max_exposure_percentage);
        lemma_product_fits(exposure, HUNDRED_PERCENT);
    }
    let limit: u128 = (total_value as u128) * (limits.max_exposure_percentage as u128) / (
    HUNDRED_PERCENT as u128);
    if limit == 0 {
        if exposure == 0 {
            0
        } else {
            HUNDRED_PERCENT
        }
    } else {
        let share: u128 = (exposure as u128) * (HUNDRED_PERCENT as u128) / limit;
        if share > HUNDRED_PERCENT as u128 {
            HUNDRED_PERCENT
        } else {
            share as u64
        }
    }
}

/// Whether so many of `wallets` are in emergency mode that the engine
/// halts.
pub fn is_halt_due(wallets: &Vec<WalletConfig>, threshold: u64) -> (r: bool)
    ensures
        r == halt_due(wallets@, threshold),
{
    let mut count: usize = 0;
    let mut i: usize = 0;
    while i < wallets.len()
        invariant
            i <= wallets@.len(),
            count <= i,
            count as int == emergency_count(wallets@, i as int),
        decreases wallets.len() - i,
    {
        if wallets[i].status == WalletStatus::Emergency {
            count += 1;
        }
        i += 1;
    }
    proof {
        lemma_product_fits(count as u64, SCALE);
        lemma_product_fits(threshold, wallets.len() as u64);
    }
    wallets.len() > 0 && (count as u128) * (SCALE as u128) >= (threshold as u128) * (
    wallets.len() as u128)
}

impl EnvelopeState {
    /// What the loss limit makes of the wallet at position `at` whose
    /// profit of the day is `daily_pnl`: in emergency mode where the loss has
    /// reached the limit, else as it was.
    pub open spec fn limited(wallets: Seq<WalletConfig>, at: int, daily_pnl: i64) -> Seq<
        WalletConfig,
    > {
        if loss_breached(daily_pnl, wallets[at].risk_limits.max_daily_loss) {
            wallets.update(at, wallets[at].with_status(WalletStatus::Emergency))
        } else {
            wallets
        }
    }

    /// Holds the wallet at position `at` to its loss limit, given its profit
    /// of the day: a wallet whose loss has reached the limit goes into
    /// emergency mode, and the engine halts where the share of wallets in
    /// emergency mode has reached the threshold.
    pub fn enforce_loss_limit(&mut self, manager: &mut WalletManager, at: usize, daily_pnl: i64)
        requires
            old(manager).well_formed(),
            at < old(manager).wallets@.len(),
        ensures
            final(manager).well_formed(),
            final(manager).wallets@ == Self::limited(old(manager).wallets@, at as int, daily_pnl),
            final(manager).wallet_metrics == old(manager).wallet_metrics,
            final(manager).active_positions == old(manager).active_positions,
            final(manager).default_wallet_id == old(manager).default_wallet_id,
            *final(self) == (EnvelopeState {
                halted: old(self).halted || halt_due(
                    final(manager).wallets@,
                    old(self).emergency_stop_threshold,
                ),
                ..*old(self)
            }),
    {
        if (daily_pnl as i128) <= -(manager.wallets[at].risk_limits.max_daily_loss as i128) {
            manager.wallets[at].status = WalletStatus::Emergency;
            proof {
                assert(manager.wallets@ =~= old(manager).wallets@.update(
                    at as int,
                    old(manager).wallets@[at as int].with_status(WalletStatus::Emergency),
                ));
                assert(wallet_ids(manager.wallets@) =~= wallet_ids(old(manager).wallets@));
                assert forall|k: int| 0 <= k < manager.wallets@.len() implies within_bounds(
                    #[trigger] manager.wallets@[k],
                ) by {
                    assert(within_bounds(old(manager).wallets@[k]));
                }
            }
        }
        if is_halt_due(&manager.wallets, self.emergency_stop_threshold) {
            self.halted = true;
        }
    }

    /// Whether `after` and `after_manager` are the envelopes and the wallets
    /// once `result` was applied under `token` at `now`, with the outcome
    /// `r`. Without an active reservation under the token, or with a pending
    /// result, nothing changes. A result that is not confirmed releases the
    /// reservation. A confirmed result converts it: the reservation is no
    /// longer active, a position is opened, the wallet's metrics count the
    /// trade, and the wallet is held to its loss limit. The risk utilization
    /// of the wallet is then at most a hundred percent, and no lower than
    /// that of its exposure before the trade.
    pub open spec fn applied(
        &self,
        manager: WalletManager,
        after: EnvelopeState,
        after_manager: WalletManager,
        token: u64,
        result: ExecutionResult,
        now: i64,
        r: Applied,
    ) -> bool {
        match active_at(self.reservations@, token) {
            None => r == Applied::NoReservation && after == *self && after_manager == manager,
            Some(i) => match result.status {
                ExecutionStatus::Pending => r == Applied::StillPending && after == *self && after_manager == manager,
                ExecutionStatus::Confirmed => {
                    let reservation = self.reservations@[i];
                    let id = reservation.wallet_id@;
                    let positions = after_manager.active_positions@;
                    &&& r == Applied::Converted
                    &&& after.reservations@ == released(self.reservations@, token)
                    &&& positions.len() == manager.active_positions@.len() + 1
                    &&& positions.drop_last() == manager.active_positions@
                    &&& is_opened(positions.last(), reservation, result)
                    &&& match (manager.position(id), manager.metrics_position(id)) {
                        (Some(w), Some(m)) => {
                            let before = manager.wallet_metrics@[m];
                            let counted = traded(
                                before,
                                result.fees,
                                result.timestamp,
                                utilization(
                                    exposure_of(positions, id, positions.len() as int),
                                    exposure_limit(
                                        manager.wallets@[w].risk_limits,
                                        before.total_value_usd,
                                    ),
                                ) as u64,
                                now,
                            );
                            &&& counted.risk_utilization <= HUNDRED_PERCENT
                            &&& counted.risk_utilization >= utilization(
                                exposure_of(
                                    manager.active_positions@,
                                    id,
                                    manager.active_positions@.len() as int,
                                ),
                                exposure_limit(
                                    manager.wallets@[w].risk_limits,
                                    before.total_value_usd,
                                ),
                            )
                            &&& after_manager.wallet_metrics@ == manager.wallet_metrics@.update(
                                m,
                                counted,
                            )
                            &&& after_manager.wallets@ == Self::limited(
                                manager.wallets@,
                                w,
                                counted.daily_pnl,
                            )
                            &&& after.halted == (self.halted || halt_due(
                                after_manager.wallets@,
                                self.emergency_stop_threshold,
                            ))
                        },
                        _ => {
                            &&& after_manager.wallet_metrics == manager.wallet_metrics
                            &&& after_manager.wallets == manager.wallets
                            &&& after.halted == self.halted
                        },
                    }
                },
                _ => {
                    &&& r == Applied::Released
                    &&& after.reservations@ == released(self.reservations@, token)
                    &&& after.halted == self.halted
                    &&& after_manager == manager
                },
            },
        }
    }

    /// Applies the result of an execution to the envelopes. Without an
    /// active reservation under `token`, or with a pending result, nothing
    /// changes. A result that is not confirmed releases the reservation. A
    /// confirmed result converts it: the reservation is no longer active, a
    /// position is opened, and the wallet's metrics count the trade, take its
    /// fees from the profit and show the new risk utilization; the wallet is
    /// then held to its loss limit.
    pub fn apply_result(
        &mut self,
        manager: &mut WalletManager,
        token: u64,
        result: &ExecutionResult,
        now: i64,
    ) -> (r: Applied)
        requires
            old(self).well_formed(),
            old(manager).well_formed(),
        ensures
            final(self).well_formed(),
            final(manager).well_formed(),
            final(self).next_token == old(self).next_token,
            final(self).current_day == old(self).current_day,
            final(self).emergency_stop_threshold == old(self).emergency_stop_threshold,
            final(manager).default_wallet_id == old(manager).default_wallet_id,
            old(self).applied(
                *old(manager),
                *final(self),
                *final(manager),
                token,
                *result,
                now,
                r,
            ),
    {
        let at = match self.find_active(token) {
            Some(i) => i,
            None => {
                return Applied::NoReservation;
            },
        };
        match result.status {
            ExecutionStatus::Pending => {
                return Applied::StillPending;
            },
            ExecutionStatus::Confirmed => {},
            _ => {
                self.release(token);
                return Applied::Released;
            },
        }
        let position = Position {
            position_id: result.transaction_id.clone(),
            wallet_id: self.reservations[at].wallet_id.clone(),
            symbol: self.reservations[at].symbol.clone(),
            strategy_type: self.reservations[at].strategy_type,
            action: self.reservations[at].side,
            quantity: result.executed_quantity,
            entry_price: result.executed_price,
            current_price: result.executed_price,
            unrealized_pnl: 0,
            opened_at: result.timestamp,
            updated_at: result.timestamp,
        };
        let wallet_id = self.reservations[at].wallet_id.clone();
        self.release(token);
        let ghost opened_before = manager.active_positions@;
        manager.active_positions.push(position);
        assert(manager.active_positions@.drop_last() =~= opened_before);
        match (manager.find_wallet(wallet_id.as_str()), manager.find_metrics(wallet_id.as_str())) {
            (Some(w), Some(m)) => {
                let exposure = self.exposure(manager, wallet_id.as_str());
                let limits = manager.wallets[w].risk_limits;
                proof {
                    let limit = exposure_limit(limits, manager.wallet_metrics@[m as int].total_value_usd);
                    let earlier = exposure_of(opened_before, wallet_id@, opened_before.len() as int);
                    assert(manager.active_positions@ =~= opened_before.push(
                        manager.active_positions@.last(),
                    ));
                    lemma_exposure_grows(opened_before, manager.active_positions@.last(), wallet_id@);
                    lemma_exposure_fits(opened_before, wallet_id@, opened_before.len() as int);
                    lemma_utilization_grows(earlier, exposure as int, limit);
                    lemma_utilization_fits(exposure as int, limit);
                }
                let risk_utilization = utilization_of(
                    exposure,
                    &limits,
                    manager.wallet_metrics[m].total_value_usd,
                );
                let daily_pnl = lower_by(manager.wallet_metrics[m].daily_pnl, result.fees);
                let total_pnl = lower_by(manager.wallet_metrics[m].total_pnl, result.fees);
                let trades = manager.wallet_metrics[m].trade_count_today;
                let ghost before = manager.wallet_metrics@;
                manager.wallet_metrics[m].daily_pnl = daily_pnl;
                manager.wallet_metrics[m].total_pnl = total_pnl;
                if trades < u32::MAX {
                    manager.wallet_metrics[m].trade_count_today = trades + 1;
                }
                manager.wallet_metrics[m].last_trade_time = Some(result.timestamp);
                manager.wallet_metrics[m].risk_utilization = risk_utilization;
                manager.wallet_metrics[m].updated_at = now;
                proof {
                    assert(manager.wallet_metrics@ =~= before.update(
                        m as int,
                        traded(
                            before[m as int],
                            result.fees,
                            result.timestamp,
                            risk_utilization,
                            now,
                        ),
                    ));
                    assert(metrics_ids(manager.wallet_metrics@) =~= metrics_ids(before));
                }
                self.enforce_loss_limit(manager, w, daily_pnl);
            },
            _ => {},
        }
        Applied::Converted
    }

    /// Records a change of `change` in the profit of the wallet `wallet_id`,
    /// as of `now`, and holds the wallet to its loss limit. A wallet that is
    /// not known, or has no metrics, is left alone.
    pub fn record_pnl(&mut self, manager: &mut WalletManager, wallet_id: &str, change: i64, now: i64)
        -> (r: bool)
        requires
            old(manager).well_formed(),
        ensures
            final(manager).well_formed(),
            final(manager).active_positions == old(manager).active_positions,
            final(manager).default_wallet_id == old(manager).default_wallet_id,
            match (old(manager).position(wallet_id@), old(manager).metrics_position(wallet_id@)) {
                (Some(w), Some(m)) => {
                    let after = credited(old(manager).wallet_metrics@[m], change, now);
                    &&& r
                    &&& final(manager).wallet_metrics@ == old(manager).wallet_metrics@.update(
                        m,
                        after,
                    )
                    &&& final(manager).wallets@ == Self::limited(
                        old(manager).wallets@,
                        w,
                        after.daily_pnl,
                    )
                    &&& *final(self) == (EnvelopeState {
                        halted: old(self).halted || halt_due(
                            final(manager).wallets@,
                            old(self).emergency_stop_threshold,
                        ),
                        ..*old(self)
                    })
                },
                _ => !r && *final(manager) == *old(manager) && *final(self) == *old(self),
            },
    {
        match (manager.find_wallet(wallet_id), manager.find_metrics(wallet_id)) {
            (Some(w), Some(m)) => {
                let daily_pnl = move_by(manager.wallet_metrics[m].daily_pnl, change);
                let total_pnl = move_by(manager.wallet_metrics[m].total_pnl, change);
                let ghost before = manager.wallet_metrics@;
                manager.wallet_metrics[m].daily_pnl = daily_pnl;
                manager.wallet_metrics[m].total_pnl = total_pnl;
                manager.wallet_metrics[m].updated_at = now;
                proof {
                    assert(manager.wallet_metrics@ =~= before.update(
                        m as int,
                        credited(before[m as int], change, now),
                    ));
                    assert(metrics_ids(manager.wallet_metrics@) =~= metrics_ids(before));
                }
                self.enforce_loss_limit(manager, w, daily_pnl);
                true
            },
            _ => false,
        }
    }

    /// Starts a new day if `now` falls on a later day than the current one:
    /// the profit of the day and the trades of the day of every wallet are
    /// set to nothing, all in one step. On the same day, or an earlier one,
    /// nothing changes, so a second call with the same time changes nothing.
    pub fn tick_calendar(&mut self, manager: &mut WalletManager, now: i64) -> (r: bool)
        requires
            old(manager).well_formed(),
        ensures
            final(manager).well_formed(),
            final(manager).wallets == old(manager).wallets,
            final(manager).active_positions == old(manager).active_positions,
            final(manager).default_wallet_id == old(manager).default_wallet_id,
            r == (day_of(now) > old(self).current_day),
            !r ==> *final(self) == *old(self) && *final(manager) == *old(manager),
            r ==> {
                &&& *final(self) == (EnvelopeState {
                    current_day: day_of(now) as i64,
                    ..*old(self)
                })
                &&& final(manager).wallet_metrics@.len() == old(manager).wallet_metrics@.len()
                &&& forall|i: int|
                    0 <= i < final(manager).wallet_metrics@.len() ==> #[trigger] final(manager).wallet_metrics@[i] == day_started(old(manager).wallet_metrics@[i])
            },
    {
        let day = day_number(now);
        if day <= self.current_day {
            return false;
        }
        self.current_day = day;
        let mut i: usize = 0;
        while i < manager.wallet_metrics.len()
            invariant
                i <= manager.wallet_metrics@.len(),
                manager.wallets == old(manager).wallets,
                manager.active_positions == old(manager).active_positions,
                manager.default_wallet_id == old(manager).default_wallet_id,
                manager.wallet_metrics@.len() == old(manager).wallet_metrics@.len(),
                forall|k: int|
                    0 <= k < i ==> #[trigger] manager.wallet_metrics@[k] == day_started(
                        old(manager).wallet_metrics@[k],
                    ),
                forall|k: int|
                    i <= k < manager.wallet_metrics@.len() ==> #[trigger] manager.wallet_metrics@[k]
                        == old(manager).wallet_metrics@[k],
            decreases manager.wallet_metrics.len() - i,
        {
            manager.wallet_metrics[i].daily_pnl = 0;
            manager.wallet_metrics[i].trade_count_today = 0;
            i += 1;
        }
        proof {
            assert(metrics_ids(manager.wallet_metrics@) =~= metrics_ids(
                old(manager).wallet_metrics@,
            ));
        }
        true
    }
}


/// Releasing is idempotent: a state from which the reservation under a
/// token was released is left as it is by releasing that token again.
pub proof fn lemma_second_release_changes_nothing(
    first: EnvelopeState,
    second: EnvelopeState,
    third: EnvelopeState,
    token: u64,
)
    requires
        first.well_formed(),
        first.releases(second, token),
        second.releases(third, token),
    ensures
        third.reservations@ == second.reservations@,
        third.next_token == second.next_token,
        third.halted == second.halted,
        third.current_day == second.current_day,
        third.emergency_stop_threshold == second.emergency_stop_threshold,
{
    lemma_release_idempotent(first.reservations@, token);
}

/// The exposure of a wallet is a value of 64 bits.
pub proof fn lemma_exposure_fits(positions: Seq<Position>, id: Seq<char>, n: int)
    ensures
        0 <= exposure_of(positions, id, n) <= u64::MAX,
    decreases n,
{
    if n > 0 {
        lemma_exposure_fits(positions, id, n - 1);
        lemma_product_fits(positions[n - 1].quantity, positions[n - 1].entry_price);
        assert(0 <= scaled_product(
            positions[n - 1].quantity as int,
            positions[n - 1].entry_price as int,
        )) by (nonlinear_arith)
            requires
                0 <= (positions[n - 1].quantity as int) * (positions[n - 1].entry_price as int),
        ;
    }
}

/// The risk utilization of an exposure that is not negative is a
/// percentage of at most a hundred.
pub proof fn lemma_utilization_fits(exposure: int, limit: int)
    requires
        0 <= exposure,
    ensures
        0 <= utilization(exposure, limit) <= HUNDRED_PERCENT,
{
    if limit > 0 {
        assert(0 <= (exposure * (HUNDRED_PERCENT as int)) / limit) by (nonlinear_arith)
            requires
                0 <= exposure,
                limit > 0,
        ;
    }
}

/// More exposure against the same limit is no less risk utilization.
pub proof fn lemma_utilization_grows(less: int, more: int, limit: int)
    requires
        0 <= less <= more,
    ensures
        utilization(less, limit) <= utilization(more, limit),
{
    if limit > 0 {
        let h = HUNDRED_PERCENT as int;
        assert((less * h) / limit <= (more * h) / limit) by (nonlinear_arith)
            requires
                0 <= less <= more,
                limit > 0,
                h > 0,
        ;
    }
}

/// The exposure through the first `n` positions does not depend on the
/// positions behind them.
pub proof fn lemma_exposure_of_prefix(
    positions: Seq<Position>,
    longer: Seq<Position>,
    id: Seq<char>,
    n: int,
)
    requires
        n <= positions.len() <= longer.len(),
        forall|k: int| 0 <= k < positions.len() ==> longer[k] == positions[k],
    ensures
        exposure_of(longer, id, n) == exposure_of(positions, id, n),
    decreases n,
{
    if n > 0 {
        lemma_exposure_of_prefix(positions, longer, id, n - 1);
    }
}

/// One more position is no less exposure.
pub proof fn lemma_exposure_grows(positions: Seq<Position>, position: Position, id: Seq<char>)
    ensures
        exposure_of(positions, id, positions.len() as int) <= exposure_of(
            positions.push(position),
            id,
            positions.len() as int + 1,
        ),
{
    let longer = positions.push(position);
    lemma_exposure_of_prefix(positions, longer, id, positions.len() as int);
    lemma_exposure_fits(positions, id, positions.len() as int);
    lemma_product_fits(position.quantity, position.entry_price);
    assert(0 <= scaled_product(position.quantity as int, position.entry_price as int))
        by (nonlinear_arith)
        requires
            0 <= (position.quantity as int) * (position.entry_price as int),
    ;
}

/// A confirmed result that was applied under the token of an active
/// reservation shows in the next snapshot of the reservation's wallet: one
/// more trade today, the fees taken from the profit of the day, and the
/// risk utilization that the wallet's positions now make of its exposure
/// limit, which is at most a hundred percent and no lower than that of the
/// exposure before the trade.
pub proof fn lemma_applied_trade_shows_in_snapshot(
    state: EnvelopeState,
    manager: WalletManager,
    after: EnvelopeState,
    after_manager: WalletManager,
    token: u64,
    result: ExecutionResult,
    now: i64,
    outcome: Applied,
)
    requires
        manager.well_formed(),
        state.applied(manager, after, after_manager, token, result, now, outcome),
        result.status == ExecutionStatus::Confirmed,
        active_at(state.reservations@, token) matches Some(i) && shown(
            manager,
            state.reservations@[i].wallet_id@,
        ) is Some,
    ensures
        ({
            let id = state.reservations@[active_at(state.reservations@, token)->0].wallet_id@;
            let positions = after_manager.active_positions@;
            &&& outcome == Applied::Converted
            &&& shown(manager, id) matches Some(before)
            &&& shown(after_manager, id) matches Some(next)
            &&& next.0.trade_count_today == bumped32(before.0.trade_count_today)
            &&& next.0.daily_pnl == lowered_by(before.0.daily_pnl, result.fees)
            &&& next.0.risk_utilization == utilization(
                exposure_of(positions, id, positions.len() as int),
                exposure_limit(before.1, before.0.total_value_usd),
            )
            &&& next.0.risk_utilization <= HUNDRED_PERCENT
            &&& next.0.risk_utilization >= utilization(
                exposure_of(
                    manager.active_positions@,
                    id,
                    manager.active_positions@.len() as int,
                ),
                exposure_limit(before.1, before.0.total_value_usd),
            )
            &&& next.0.last_trade_time == Some(result.timestamp)
            &&& next.1 == before.1
        }),
{
    let i = active_at(state.reservations@, token)->0;
    let id = state.reservations@[i].wallet_id@;
    let w = manager.position(id)->0;
    let m = manager.metrics_position(id)->0;
    crate::lists::lemma_index_in(wallet_ids(manager.wallets@), id);
    crate::lists::lemma_index_in(metrics_ids(manager.wallet_metrics@), id);
    assert(metrics_ids(after_manager.wallet_metrics@) =~= metrics_ids(manager.wallet_metrics@));
    assert(wallet_ids(after_manager.wallets@) =~= wallet_ids(manager.wallets@));
    let positions = after_manager.active_positions@;
    let used = utilization(
        exposure_of(positions, id, positions.len() as int),
        exposure_limit(manager.wallets@[w].risk_limits, manager.wallet_metrics@[m].total_value_usd),
    );
    assert(0 <= used <= u64::MAX) by {
        lemma_exposure_fits(positions, id, positions.len() as int);
        lemma_utilization_fits(
            exposure_of(positions, id, positions.len() as int),
            exposure_limit(
                manager.wallets@[w].risk_limits,
                manager.wallet_metrics@[m].total_value_usd,
            ),
        );
    }
}

/// A wallet whose loss of the day has reached its limit is in emergency
/// mode once it is held to the limit, and every other wallet is as it was.
pub proof fn lemma_breach_puts_wallet_in_emergency(
    wallets: Seq<WalletConfig>,
    at: int,
    daily_pnl: i64,
)
    requires
        0 <= at < wallets.len(),
        loss_breached(daily_pnl, wallets[at].risk_limits.max_daily_loss),
    ensures
        EnvelopeState::limited(wallets, at, daily_pnl)[at].status == WalletStatus::Emergency,
        EnvelopeState::limited(wallets, at, daily_pnl).len() == wallets.len(),
        forall|k: int|
            0 <= k < wallets.len() && k != at ==> #[trigger] EnvelopeState::limited(
                wallets,
                at,
                daily_pnl,
            )[k] == wallets[k],
{
}

/// Starting the day twice is starting it once.
pub proof fn lemma_day_started_idempotent(m: WalletMetrics)
    ensures
        day_started(day_started(m)) == day_started(m),
{
}


impl EnvelopeState {
    /// Whether the state is well formed.
    pub fn is_well_formed(&self) -> (r: bool)
        ensures
            r == self.well_formed(),
    {
        let mut j: usize = 0;
        while j < self.reservations.len()
            invariant
                j <= self.reservations@.len(),
                forall|a: int|
                    0 <= a < j ==> (#[trigger] self.reservations@[a]).token < self.next_token,
                forall|a: int, b: int|
                    0 <= a < b < j ==> self.reservations@[a].token != self.reservations@[b].token,
            decreases self.reservations.len() - j,
        {
            if self.reservations[j].token >= self.next_token {
                return false;
            }
            let mut i: usize = 0;
            while i < j
                invariant
                    i <= j < self.reservations@.len(),
                    forall|a: int|
                        0 <= a < i ==> self.reservations@[a].token != self.reservations@[j as int].token,
                decreases j - i,
            {
                if self.reservations[i].token == self.reservations[j].token {
                    return false;
                }
                i += 1;
            }
            j += 1;
        }
        true
    }
}

/// The identifiers of a list of positions.
pub open spec fn position_ids(positions: Seq<Position>) -> Seq<Seq<char>> {
    Seq::new(positions.len(), |i: int| positions[i].position_id@)
}

/// What closing a position at `exit_price` gains: for a position that was
/// sold, its value at entry less its value at exit; for any other, its value
/// at exit less its value at entry; values held to 64 bits.
pub open spec fn realized_pnl(position: Position, exit_price: u64) -> int {
    let entry = capped(scaled_product(position.quantity as int, position.entry_price as int));
    let exit = capped(scaled_product(position.quantity as int, exit_price as int));
    if position.action == TradeAction::Sell {
        entry - exit
    } else {
        exit - entry
    }
}

/// The metrics of a wallet after a position was closed with the gain
/// `gain`, with the risk utilization `risk_utilization`, as of `now`.
pub open spec fn settled(m: WalletMetrics, gain: i64, risk_utilization: u64, now: i64)
    -> WalletMetrics {
    WalletMetrics { risk_utilization, ..credited(m, gain, now) }
}

/// The value of `quantity` at `price`, held to 64 bits.
pub fn capped_value(quantity: u64, price: u64) -> (r: u64)
    ensures
        r as int == capped(scaled_product(quantity as int, price as int)),
{
    let wide = wide_scaled_product(quantity, price);
    if wide > u64::MAX as u128 {
        u64::MAX
    } else {
        wide as u64
    }
}

/// The place of the first position with the identifier `position_id`.
pub fn find_position(positions: &Vec<Position>, position_id: &str) -> (r: Option<usize>)
    ensures
        match r {
            Some(i) => index_in(position_ids(positions@), position_id@) == Some(i as int) && i
                < positions@.len(),
            None => index_in(position_ids(positions@), position_id@) is None,
        },
{
    let ghost ids = position_ids(positions@);
    let mut i: usize = 0;
    while i < positions.len()
        invariant
            i <= positions@.len(),
            ids == position_ids(positions@),
            forall|j: int| 0 <= j < i ==> ids[j] != position_id@,
        decreases positions.len() - i,
    {
        if same_text(positions[i].position_id.as_str(), position_id) {
            proof {
                lemma_index_in_is(ids, position_id@, i as int);
            }
            return Some(i);
        }
        i += 1;
    }
    proof {
        lemma_index_in(ids, position_id@);
    }
    None
}

impl EnvelopeState {
    /// Closes the first position with the identifier `position_id` at
    /// `exit_price`, as of `now`, and gives what that gains. The position is
    /// no longer open; the gain goes to the profit of its wallet, whose risk
    /// utilization is that of the positions it still has; and the wallet is
    /// held to its loss limit. Without such a position nothing changes.
    pub fn close_position(
        &mut self,
        manager: &mut WalletManager,
        position_id: &str,
        exit_price: u64,
        now: i64,
    ) -> (r: Option<i64>)
        requires
            old(manager).well_formed(),
        ensures
            final(manager).well_formed(),
            final(manager).default_wallet_id == old(manager).default_wallet_id,
            final(self).reservations == old(self).reservations,
            final(self).next_token == old(self).next_token,
            final(self).current_day == old(self).current_day,
            final(self).emergency_stop_threshold == old(self).emergency_stop_threshold,
            match index_in(position_ids(old(manager).active_positions@), position_id@) {
                None => r is None && *final(manager) == *old(manager) && *final(self) == *old(self),
                Some(i) => {
                    let closed = old(manager).active_positions@[i];
                    let id = closed.wallet_id@;
                    let positions = old(manager).active_positions@.remove(i);
                    &&& r matches Some(gain)
                    &&& gain as int == crate::fixed::clamp(
                        realized_pnl(closed, exit_price),
                        i64::MIN as int,
                        i64::MAX as int,
                    )
                    &&& final(manager).active_positions@ == positions
                    &&& match (old(manager).position(id), old(manager).metrics_position(id)) {
                        (Some(w), Some(m)) => {
                            let before = old(manager).wallet_metrics@[m];
                            let after = settled(
                                before,
                                gain,
                                utilization(
                                    exposure_of(positions, id, positions.len() as int),
                                    exposure_limit(
                                        old(manager).wallets@[w].risk_limits,
                                        before.total_value_usd,
                                    ),
                                ) as u64,
                                now,
                            );
                            &&& final(manager).wallet_metrics@ == old(manager).wallet_metrics@.update(m, after)
                            &&& final(manager).wallets@ == Self::limited(
                                old(manager).wallets@,
                                w,
                                after.daily_pnl,
                            )
                            &&& final(self).halted == (old(self).halted || halt_due(
                                final(manager).wallets@,
                                old(self).emergency_stop_threshold,
                            ))
                        },
                        _ => {
                            &&& final(manager).wallet_metrics == old(manager).wallet_metrics
                            &&& final(manager).wallets == old(manager).wallets
                            &&& final(self).halted == old(self).halted
                        },
                    }
                },
            },
    {
        let i = match find_position(&manager.active_positions, position_id) {
            Some(i) => i,
            None => {
                return None;
            },
        };
        let closed = manager.active_positions.remove(i);
        let entry = capped_value(closed.quantity, closed.entry_price);
        let exit = capped_value(closed.quantity, exit_price);
        let wide: i128 = match closed.action {
            TradeAction::Sell => entry as i128 - exit as i128,
            _ => exit as i128 - entry as i128,
        };
        let gain: i64 = if wide > i64::MAX as i128 {
            i64::MAX
        } else if wide < i64::MIN as i128 {
            i64::MIN
        } else {
            wide as i64
        };
        match (
            manager.find_wallet(closed.wallet_id.as_str()),
            manager.find_metrics(closed.wallet_id.as_str()),
        ) {
            (Some(w), Some(m)) => {
                let exposure = self.exposure(manager, closed.wallet_id.as_str());
                let limits = manager.wallets[w].risk_limits;
                let risk_utilization = utilization_of(
                    exposure,
                    &limits,
                    manager.wallet_metrics[m].total_value_usd,
                );
                let daily_pnl = move_by(manager.wallet_metrics[m].daily_pnl, gain);
                let total_pnl = move_by(manager.wallet_metrics[m].total_pnl, gain);
                let ghost before = manager.wallet_metrics@;
                manager.wallet_metrics[m].daily_pnl = daily_pnl;
                manager.wallet_metrics[m].total_pnl = total_pnl;
                manager.wallet_metrics[m].risk_utilization = risk_utilization;
                manager.wallet_metrics[m].updated_at = now;
                proof {
                    assert(manager.wallet_metrics@ =~= before.update(
                        m as int,
                        settled(before[m as int], gain, risk_utilization, now),
                    ));
                    assert(metrics_ids(manager.wallet_metrics@) =~= metrics_ids(before));
                }
                self.enforce_loss_limit(manager, w, daily_pnl);
            },
            _ => {},
        }
        Some(gain)
    }
}

} // verus!
