//! Market data as it enters the pipeline.

use vstd::prelude::*;
use crate::fixed::{saturating_add, saturating_sum, SCALE};
use crate::lists::{distinct, index_in, lemma_index_in, lemma_index_in_is};
use crate::platform::now_millis;

verus! {

/// Where a market tick came from.
#[derive(Debug, Clone, Copy, PartialEq, Eq, Structural, Hash)]
pub enum DataSource {
    Helius,
    QuickNode,
}

/// One market tick. Price and volume are in millionths, the timestamp in
/// milliseconds since the Unix epoch.
#[derive(Debug)]
pub struct MarketData {
    pub symbol: String,
    pub price: u64,
    pub volume: u64,
    pub timestamp: i64,
    pub source: DataSource,
}

impl Clone for MarketData {
    fn clone(&self) -> (r: Self)
        ensures
            r == *self,
    {
        MarketData {
            symbol: self.symbol.clone(),
            price: self.price,
            volume: self.volume,
            timestamp: self.timestamp,
            source: self.source,
        }
    }
}

/// The remainder of a timestamp on division by `m`, never negative.
pub open spec fn time_remainder(t: int, m: int) -> int
    recommends
        m > 0,
{
    t % m
}

/// The remainder of the timestamp `t` on division by `m`, never negative.
pub fn remainder_of(t: i64, m: u16) -> (r: u64)
    requires
        m > 0,
    ensures
        r as int == time_remainder(t as int, m as int),
        r < m,
{
    if t >= 0 {
        let r = (t as u64) % (m as u64);
        r
    } else {
        // -(t + 1) is between 0 and i64::MAX.
        let back: u64 = (-(t + 1)) as u64;
        let k: u64 = back % (m as u64);
        let r: u64 = (m as u64) - 1 - k;
        proof {
            let mi = m as int;
            let q = (back as int) / mi;
            assert(back as int == q * mi + k) by {
                vstd::arithmetic::div_mod::lemma_fundamental_div_mod(back as int, mi);
            }
            assert(t as int == (-q - 1) * mi + r) by (nonlinear_arith)
                requires
                    back as int == q * mi + k,
                    back as int == -(t as int) - 1,
                    r as int == mi - 1 - k,
            ;
            vstd::arithmetic::div_mod::lemma_fundamental_div_mod_converse(
                t as int,
                mi,
                -q - 1,
                r as int,
            );
        }
        r
    }
}

/// The price that the simulated feed moves to from `price_base` at time
/// `now`: up by a tenth for each unit of `now` modulo ten, then down by a
/// half, and never below zero nor above what 64 bits hold.
pub open spec fn simulated_price(price_base: u64, now: i64) -> int {
    let moved = price_base + time_remainder(now as int, 10) * 100_000 - 500_000;
    if moved < 0 {
        0
    } else if moved > u64::MAX {
        u64::MAX as int
    } else {
        moved
    }
}

/// The volume that the simulated feed reports at time `now`.
pub open spec fn simulated_volume(now: i64) -> int {
    1000 * SCALE + time_remainder(now as int, 500) * SCALE
}

/// The source of market ticks. It holds the keys of its two providers and
/// the base price of its simulated feed.
pub struct DataIngestor {
    pub helius_api_key: String,
    pub quicknode_api_key: String,
    pub is_running: bool,
    pub price_base: u64,
}

impl DataIngestor {
    /// An ingestor that is not running, whose simulated feed starts at 100.
    pub fn new(helius_api_key: String, quicknode_api_key: String) -> (r: Self)
        ensures
            !r.is_running,
            r.price_base == 100 * SCALE,
            r.helius_api_key == helius_api_key,
            r.quicknode_api_key == quicknode_api_key,
    {
        DataIngestor { helius_api_key, quicknode_api_key, is_running: false, price_base: 100 * SCALE }
    }

    /// Marks the ingestor as running.
    pub fn start(&mut self)
        ensures
            final(self).is_running,
            final(self).price_base == old(self).price_base,
            final(self).helius_api_key == old(self).helius_api_key,
            final(self).quicknode_api_key == old(self).quicknode_api_key,
    {
        self.is_running = true;
    }

    /// Marks the ingestor as stopped.
    pub fn stop(&mut self)
        ensures
            !final(self).is_running,
            final(self).price_base == old(self).price_base,
            final(self).helius_api_key == old(self).helius_api_key,
            final(self).quicknode_api_key == old(self).quicknode_api_key,
    {
        self.is_running = false;
    }

    /// The next tick of the simulated feed at time `now`, or none when the
    /// ingestor is not running. The base price moves to the tick's price.
    pub fn simulate_tick(&mut self, now: i64) -> (r: Option<MarketData>)
        ensures
            final(self).is_running == old(self).is_running,
            final(self).helius_api_key == old(self).helius_api_key,
            final(self).quicknode_api_key == old(self).quicknode_api_key,
            !old(self).is_running ==> r is None && final(self).price_base == old(self).price_base,
            old(self).is_running ==> r is Some && final(self).price_base as int == simulated_price(
                old(self).price_base,
                now,
            ),
            r matches Some(tick) ==> {
                &&& tick.symbol@ == "SOL/USDC"@
                &&& tick.price as int == simulated_price(old(self).price_base, now)
                &&& tick.volume as int == simulated_volume(now)
                &&& tick.timestamp == now
                &&& tick.source == DataSource::Helius
            },
    {
        if !self.is_running {
            return None;
        }
        let step: u64 = remainder_of(now, 10) * 100_000;
        let raised: u128 = self.price_base as u128 + step as u128;
        let price: u64 = if raised < 500_000 {
            0
        } else if raised - 500_000 > u64::MAX as u128 {
            u64::MAX
        } else {
            (raised - 500_000) as u64
        };
        let volume: u64 = 1000 * SCALE + remainder_of(now, 500) * SCALE;
        self.price_base = price;
        Some(
            MarketData {
                symbol: String::from_str("SOL/USDC"),
                price,
                volume,
                timestamp: now,
                source: DataSource::Helius,
            },
        )
    }

    /// The next tick of the simulated feed, at the time of the system clock.
    pub fn simulate_market_data(&mut self) -> (r: Option<MarketData>)
        ensures
            final(self).is_running == old(self).is_running,
            r is Some <==> old(self).is_running,
            final(self).helius_api_key == old(self).helius_api_key,
            final(self).quicknode_api_key == old(self).quicknode_api_key,
            !old(self).is_running ==> final(self).price_base == old(self).price_base,
            r matches Some(tick) ==> {
                &&& tick.symbol@ == "SOL/USDC"@
                &&& tick.price == final(self).price_base
                &&& tick.price as int == simulated_price(old(self).price_base, tick.timestamp)
                &&& tick.volume as int == simulated_volume(tick.timestamp)
                &&& tick.source == DataSource::Helius
            },
    {
        let now = now_millis();
        self.simulate_tick(now)
    }
}

/// The time of the last tick that was let through for a symbol.
#[derive(Debug)]
pub struct SymbolClock {
    pub symbol: String,
    pub last_timestamp: i64,
}

/// Lets the ticks of each symbol through in the order of their time: a tick
/// that is no later than the last one of its symbol is dropped, and counted.
#[derive(Debug)]
pub struct TickFilter {
    pub clocks: Vec<SymbolClock>,
    pub dropped: u64,
}

/// The symbols of a list of clocks.
pub open spec fn clock_symbols(clocks: Seq<SymbolClock>) -> Seq<Seq<char>> {
    Seq::new(clocks.len(), |i: int| clocks[i].symbol@)
}

impl TickFilter {
    /// The filter is well formed when it has one clock for each symbol.
    pub open spec fn well_formed(&self) -> bool {
        distinct(clock_symbols(self.clocks@))
    }

    /// The time of the last tick that was let through for `symbol`, if one
    /// was.
    pub open spec fn last_seen(&self, symbol: Seq<char>) -> Option<i64> {
        match index_in(clock_symbols(self.clocks@), symbol) {
            Some(i) => Some(self.clocks@[i].last_timestamp),
            None => None,
        }
    }

    /// Whether a tick of `symbol` at `timestamp` is let through: it is the
    /// first of its symbol, or later than the last one.
    pub open spec fn lets_through(&self, symbol: Seq<char>, timestamp: i64) -> bool {
        match self.last_seen(symbol) {
            Some(last) => timestamp > last,
            None => true,
        }
    }

    /// A filter that has seen nothing.
    pub fn new() -> (r: Self)
        ensures
            r.clocks@.len() == 0,
            r.dropped == 0,
            r.well_formed(),
    {
        TickFilter { clocks: Vec::new(), dropped: 0 }
    }

    /// Whether the filter is well formed.
    pub fn is_well_formed(&self) -> (r: bool)
        ensures
            r == self.well_formed(),
    {
        let ghost symbols = clock_symbols(self.clocks@);
        let mut j: usize = 0;
        while j < self.clocks.len()
            invariant
                j <= self.clocks@.len(),
                symbols == clock_symbols(self.clocks@),
                forall|a: int, b: int| 0 <= a < b < j ==> symbols[a] != symbols[b],
            decreases self.clocks.len() - j,
        {
            let mut i: usize = 0;
            while i < j
                invariant
                    i <= j < self.clocks@.len(),
                    symbols == clock_symbols(self.clocks@),
                    forall|a: int| 0 <= a < i ==> symbols[a] != symbols[j as int],
                decreases j - i,
            {
                if crate::text::same_text(
                    self.clocks[i].symbol.as_str(),
                    self.clocks[j].symbol.as_str(),
                ) {
                    assert(symbols[i as int] == symbols[j as int]);
                    return false;
                }
                i += 1;
            }
            j += 1;
        }
        true
    }

    /// Looks at `tick`, and says whether it is let through. A tick that is
    /// let through becomes the last one of its symbol; one that is not is
    /// counted as dropped. The ticks of other symbols do not matter.
    pub fn accept(&mut self, tick: &MarketData) -> (r: bool)
        requires
            old(self).well_formed(),
        ensures
            final(self).well_formed(),
            r == old(self).lets_through(tick.symbol@, tick.timestamp),
            r ==> final(self).last_seen(tick.symbol@) == Some(tick.timestamp) && final(self).dropped == old(self).dropped,
            !r ==> final(self).clocks == old(self).clocks && final(self).dropped
                == saturating_sum(old(self).dropped, 1),
            forall|other: Seq<char>|
                other != tick.symbol@ ==> #[trigger] final(self).last_seen(other) == old(self).last_seen(other),
    {
        let ghost symbols = clock_symbols(self.clocks@);
        let mut i: usize = 0;
        while i < self.clocks.len()
            invariant
                i <= self.clocks@.len(),
                self.clocks == old(self).clocks,
                self.dropped == old(self).dropped,
                symbols == clock_symbols(self.clocks@),
                distinct(symbols),
                forall|j: int| 0 <= j < i ==> symbols[j] != tick.symbol@,
            decreases self.clocks.len() - i,
        {
            if crate::text::same_text(self.clocks[i].symbol.as_str(), tick.symbol.as_str()) {
                proof {
                    lemma_index_in_is(symbols, tick.symbol@, i as int);
                }
                if tick.timestamp > self.clocks[i].last_timestamp {
                    self.clocks[i].last_timestamp = tick.timestamp;
                    proof {
                        let after = clock_symbols(self.clocks@);
                        assert(after =~= symbols);
                        assert forall|other: Seq<char>| other != tick.symbol@ implies #[trigger] self.last_seen(
                            other,
                        ) == old(self).last_seen(other) by {
                            lemma_index_in(symbols, other);
                        }
                    }
                    return true;
                }
                self.dropped = saturating_add(self.dropped, 1);
                return false;
            }
            i += 1;
        }
        proof {
            lemma_index_in(symbols, tick.symbol@);
        }
        self.clocks.push(SymbolClock { symbol: tick.symbol.clone(), last_timestamp: tick.timestamp });
        proof {
            let after = clock_symbols(self.clocks@);
            assert(after =~= symbols.push(tick.symbol@));
            lemma_index_in_is(after, tick.symbol@, symbols.len() as int);
            assert forall|a: int, b: int| 0 <= a < b < after.len() implies after[a] != after[b] by {
                if b < symbols.len() {
                    assert(after[a] == symbols[a] && after[b] == symbols[b]);
                } else {
                    assert(after[a] == symbols[a]);
                }
            }
            assert forall|other: Seq<char>| other != tick.symbol@ implies #[trigger] self.last_seen(
                other,
            ) == old(self).last_seen(other) by {
                lemma_index_in(symbols, other);
                lemma_index_in(after, other);
                match index_in(symbols, other) {
                    Some(k) => {
                        assert(after[k] == other);
                        lemma_index_in_is(after, other, k);
                    },
                    None => {},
                }
            }
        }
        true
    }
}

} // verus!
