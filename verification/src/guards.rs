//! Microstructure guards: stale data, spread, liquidity, imbalance, slippage
//! and quote flicker. A tripped guard latches the symbol for a time-to-live,
//! during which every check reports the same reason.
use vstd::prelude::*;
use crate::symmap::SymMap;
use crate::time_buffer::{pruned, pushed, TimeRingBuffer};
use crate::types::{key_le, key_lt, OrdKey, RejectReason, SymbolId, KEY_ZERO};

verus! {

/// Guard thresholds. Price quantities are keys of doubles.
#[derive(Debug, Clone, Copy)]
pub struct GuardConfig {
    /// Widest spread allowed, in price units.
    pub max_spread_cents: OrdKey,
    /// Largest `|bid_size - ask_size| / (bid_size + ask_size)` allowed.
    pub max_imbalance_ratio: OrdKey,
    /// Oldest market data accepted, in milliseconds.
    pub max_staleness_ms: u64,
    /// Least size at the best bid and ask together.
    pub min_liquidity_shares: u32,
    /// Most updates allowed inside the flicker window.
    pub max_flicker_count: usize,
    /// Flicker window, in milliseconds.
    pub flicker_window_ms: u64,
    /// Largest distance allowed between mid price and last trade.
    pub slippage_tol_cents: OrdKey,
    /// How long a tripped guard keeps the symbol blocked, in milliseconds.
    pub ttl_ms: u64,
}

/// Key of 0.05.
pub const KEY_0_05: u64 = 0xBFA9_9999_9999_999Au64;
/// Key of 0.7.
pub const KEY_0_7: u64 = 0xBFE6_6666_6666_6666u64;
/// Key of 0.03.
pub const KEY_0_03: u64 = 0xBF9E_B851_EB85_1EB8u64;

impl Default for GuardConfig {
    /// Spread 0.05, imbalance 0.7, staleness 3000 ms, liquidity 200 shares,
    /// 10 updates per 1000 ms, slippage 0.03, latch 2000 ms.
    fn default() -> (c: Self)
        ensures
            c.max_spread_cents == OrdKey(KEY_0_05),
            c.max_imbalance_ratio == OrdKey(KEY_0_7),
            c.max_staleness_ms == 3000,
            c.min_liquidity_shares == 200,
            c.max_flicker_count == 10,
            c.flicker_window_ms == 1000,
            c.slippage_tol_cents == OrdKey(KEY_0_03),
            c.ttl_ms == 2000,
    {
        GuardConfig {
            max_spread_cents: OrdKey(KEY_0_05),
            max_imbalance_ratio: OrdKey(KEY_0_7),
            max_staleness_ms: 3000,
            min_liquidity_shares: 200,
            max_flicker_count: 10,
            flicker_window_ms: 1000,
            slippage_tol_cents: OrdKey(KEY_0_03),
            ttl_ms: 2000,
        }
    }
}

/// Per-symbol guard state.
pub struct GuardState {
    last_update_ts: u64,
    blocked_until: u64,
    block_reason: Option<RejectReason>,
    flicker_buffer: TimeRingBuffer<()>,
}

impl GuardState {
    pub closed spec fn wf(&self) -> bool {
        self.flicker_buffer.wf()
    }

    pub closed spec fn last_update(&self) -> u64 {
        self.last_update_ts
    }

    pub closed spec fn until(&self) -> u64 {
        self.blocked_until
    }

    pub closed spec fn reason(&self) -> Option<RejectReason> {
        self.block_reason
    }

    /// Recent update stamps.
    pub closed spec fn flicker(&self) -> Seq<(u64, ())> {
        self.flicker_buffer@
    }

    pub closed spec fn flicker_capacity(&self) -> nat {
        self.flicker_buffer.max_len()
    }

    pub closed spec fn flicker_window(&self) -> u64 {
        self.flicker_buffer.window()
    }

    /// A state that never saw an update.
    fn new(flicker_capacity: usize, flicker_window_unit: u64) -> (s: Self)
        requires
            flicker_capacity < usize::MAX,
        ensures
            s.wf(),
            s.last_update() == 0,
            s.until() == 0,
            s.reason() is None,
            s.flicker() == Seq::<(u64, ())>::empty(),
            s.flicker_capacity() == flicker_capacity,
            s.flicker_window() == flicker_window_unit,
    {
        GuardState {
            last_update_ts: 0,
            blocked_until: 0,
            block_reason: None,
            flicker_buffer: TimeRingBuffer::new(flicker_capacity, flicker_window_unit),
        }
    }
}

/// The checks of `check_execution` after the latch, on the given quote.
pub open spec fn execution_verdict(
    cfg: GuardConfig,
    timestamp_ms: u64,
    data_timestamp_ms: u64,
    spread: OrdKey,
    bid_size: u32,
    ask_size: u32,
    imbalance: OrdKey,
    deviation: OrdKey,
) -> Result<(), RejectReason> {
    let age = if timestamp_ms >= data_timestamp_ms { timestamp_ms - data_timestamp_ms } else { 0 };
    let total = bid_size + ask_size;
    if age > cfg.max_staleness_ms {
        Err(RejectReason::GuardStale)
    } else if key_lt(cfg.max_spread_cents, spread) || key_le(spread, OrdKey(KEY_ZERO)) {
        Err(RejectReason::GuardSpread)
    } else if total < cfg.min_liquidity_shares {
        Err(RejectReason::GuardL2Vacuum)
    } else if total > 0 && key_lt(cfg.max_imbalance_ratio, imbalance) {
        Err(RejectReason::GuardImbalance)
    } else if key_lt(cfg.slippage_tol_cents, deviation) {
        Err(RejectReason::GuardSlippage)
    } else {
        Ok(())
    }
}

/// What `check_execution` answers on an evaluator in state `g`.
pub open spec fn guard_outcome(
    g: GuardEvaluator,
    symbol: SymbolId,
    timestamp_ms: u64,
    data_timestamp_ms: u64,
    spread: OrdKey,
    bid_size: u32,
    ask_size: u32,
    imbalance: OrdKey,
    deviation: OrdKey,
) -> Result<(), RejectReason> {
    if g.latched(symbol, timestamp_ms) {
        Err(g.block_reason_of(symbol)->0)
    } else {
        execution_verdict(g.cfg(), timestamp_ms, data_timestamp_ms, spread, bid_size, ask_size, imbalance, deviation)
    }
}

/// Start of the flicker window that ends at `ts` (saturating at zero).
pub open spec fn window_start(ts: u64, window: u64) -> u64 {
    if ts >= window {
        (ts - window) as u64
    } else {
        0
    }
}

/// Evaluates the guards per symbol.
pub struct GuardEvaluator {
    config: GuardConfig,
    states: SymMap<GuardState>,
}

impl GuardEvaluator {
    pub closed spec fn cfg(&self) -> GuardConfig {
        self.config
    }

    /// Whether the symbol has a state yet.
    pub closed spec fn tracks(&self, s: SymbolId) -> bool {
        self.states@.contains_key(s)
    }

    /// Time of the last update seen for the symbol (0 before any).
    pub closed spec fn last_update_of(&self, s: SymbolId) -> u64 {
        if self.tracks(s) { self.states@[s].last_update() } else { 0 }
    }

    /// End of the symbol's latch (0 before any).
    pub closed spec fn blocked_until_of(&self, s: SymbolId) -> u64 {
        if self.tracks(s) { self.states@[s].until() } else { 0 }
    }

    /// Reason of the symbol's latch, if any.
    pub closed spec fn block_reason_of(&self, s: SymbolId) -> Option<RejectReason> {
        if self.tracks(s) { self.states@[s].reason() } else { None }
    }

    /// Recent update stamps of the symbol (none before any).
    pub closed spec fn flicker_of(&self, s: SymbolId) -> Seq<(u64, ())> {
        if self.tracks(s) { self.states@[s].flicker() } else { Seq::empty() }
    }

    /// Whether the symbol is latched at `ts`.
    pub open spec fn latched(&self, s: SymbolId, ts: u64) -> bool {
        ts < self.blocked_until_of(s) && self.block_reason_of(s) is Some
    }

    /// The two evaluators hold the same state for `s`.
    pub open spec fn same_state(&self, other: &Self, s: SymbolId) -> bool {
        &&& self.tracks(s) == other.tracks(s)
        &&& self.last_update_of(s) == other.last_update_of(s)
        &&& self.blocked_until_of(s) == other.blocked_until_of(s)
        &&& self.block_reason_of(s) == other.block_reason_of(s)
        &&& self.flicker_of(s) == other.flicker_of(s)
    }

    pub closed spec fn wf(&self) -> bool {
        &&& self.states.wf()
        &&& self.config.max_flicker_count * 2 < usize::MAX
        &&& forall|s: SymbolId| #[trigger] self.states@.contains_key(s) ==> {
            &&& self.states@[s].wf()
            &&& self.states@[s].flicker_capacity() == self.config.max_flicker_count * 2
            &&& self.states@[s].flicker_window() == self.config.flicker_window_ms
        }
    }

    /// An evaluator with no symbol state yet.
    pub fn new(config: GuardConfig) -> (g: Self)
        requires
            config.max_flicker_count * 2 < usize::MAX,
        ensures
            g.wf(),
            g.cfg() == config,
            forall|s: SymbolId| !g.tracks(s),
            forall|s: SymbolId| {
                &&& #[trigger] g.block_reason_of(s) is None
                &&& g.blocked_until_of(s) == 0
                &&& g.last_update_of(s) == 0
                &&& g.flicker_of(s) == Seq::<(u64, ())>::empty()
                &&& !g.latched(s, 0)
            },
    {
        GuardEvaluator { config, states: SymMap::new() }
    }

    /// Takes the symbol's state out of the map, or makes a fresh one.
    fn take_state(&mut self, symbol: SymbolId) -> (st: GuardState)
        requires
            old(self).wf(),
        ensures
            final(self).states.wf(),
            final(self).config == old(self).config,
            final(self).states@ == old(self).states@.remove(symbol),
            st.wf(),
            st.flicker_capacity() == old(self).config.max_flicker_count * 2,
            st.flicker_window() == old(self).config.flicker_window_ms,
            st.last_update() == old(self).last_update_of(symbol),
            st.until() == old(self).blocked_until_of(symbol),
            st.reason() == old(self).block_reason_of(symbol),
            st.flicker() == old(self).flicker_of(symbol),
    {
        match self.states.remove(&symbol) {
            Some(st) => st,
            None => GuardState::new(self.config.max_flicker_count * 2, self.config.flicker_window_ms),
        }
    }

    /// Puts the symbol's state back.
    fn put_state(&mut self, symbol: SymbolId, st: GuardState)
        requires
            old(self).states.wf(),
            old(self).config.max_flicker_count * 2 < usize::MAX,
            forall|s: SymbolId| #[trigger] old(self).states@.contains_key(s) ==> {
                &&& old(self).states@[s].wf()
                &&& old(self).states@[s].flicker_capacity() == old(self).config.max_flicker_count * 2
                &&& old(self).states@[s].flicker_window() == old(self).config.flicker_window_ms
            },
            st.wf(),
            st.flicker_capacity() == old(self).config.max_flicker_count * 2,
            st.flicker_window() == old(self).config.flicker_window_ms,
        ensures
            final(self).wf(),
            final(self).config == old(self).config,
            final(self).states@ == old(self).states@.insert(symbol, st),
    {
        self.states.insert(symbol, st);
    }

    /// Records a market-data update for flicker detection. More than
    /// `max_flicker_count` updates inside the window trip `GuardFlicker`;
    /// a symbol already latched reports its latch reason.
    pub fn track_event(&mut self, symbol: SymbolId, timestamp_ms: u64) -> (r: Result<(), RejectReason>)
        requires
            old(self).wf(),
            timestamp_ms + old(self).cfg().ttl_ms <= u64::MAX,
        ensures
            final(self).wf(),
            final(self).cfg() == old(self).cfg(),
            forall|s: SymbolId| s != symbol ==> #[trigger] final(self).same_state(&*old(self), s),
            final(self).tracks(symbol),
            final(self).last_update_of(symbol) == timestamp_ms,
            old(self).latched(symbol, timestamp_ms) ==> {
                &&& r == Err::<(), RejectReason>(old(self).block_reason_of(symbol)->0)
                &&& final(self).blocked_until_of(symbol) == old(self).blocked_until_of(symbol)
                &&& final(self).block_reason_of(symbol) == old(self).block_reason_of(symbol)
                &&& final(self).flicker_of(symbol) == old(self).flicker_of(symbol)
            },
            !old(self).latched(symbol, timestamp_ms) ==> {
                &&& pruned(
                    pushed(
                        old(self).flicker_of(symbol),
                        (old(self).cfg().max_flicker_count * 2) as nat,
                        (timestamp_ms, ()),
                    ),
                    window_start(timestamp_ms, old(self).cfg().flicker_window_ms),
                    final(self).flicker_of(symbol),
                )
                &&& if final(self).flicker_of(symbol).len() > old(self).cfg().max_flicker_count {
                    &&& r == Err::<(), RejectReason>(RejectReason::GuardFlicker)
                    &&& final(self).blocked_until_of(symbol) == timestamp_ms + old(self).cfg().ttl_ms
                    &&& final(self).block_reason_of(symbol) == Some(RejectReason::GuardFlicker)
                } else {
                    &&& r is Ok
                    &&& final(self).blocked_until_of(symbol) == old(self).blocked_until_of(symbol)
                    &&& final(self).block_reason_of(symbol) == old(self).block_reason_of(symbol)
                }
            },
    {
        let mut st = self.take_state(symbol);
        st.last_update_ts = timestamp_ms;
        if timestamp_ms < st.blocked_until {
            if let Some(reason) = st.block_reason {
                self.put_state(symbol, st);
                return Err(reason);
            }
        }
        st.flicker_buffer.push(timestamp_ms, ());
        st.flicker_buffer.prune_expired(timestamp_ms);
        let r = if st.flicker_buffer.len() > self.config.max_flicker_count {
            st.blocked_until = timestamp_ms + self.config.ttl_ms;
            st.block_reason = Some(RejectReason::GuardFlicker);
            Err(RejectReason::GuardFlicker)
        } else {
            Ok(())
        };
        self.put_state(symbol, st);
        r
    }

    /// Evaluates every guard but flicker for a quote. The caller passes the
    /// quote's spread (`ask - bid`), imbalance ratio and mid-to-last-trade
    /// deviation. A symbol latched at `timestamp_ms` reports its latch
    /// reason; a failing check latches the symbol for `ttl_ms`; a pass clears
    /// the latch reason.
    pub fn check_execution(
        &mut self,
        symbol: SymbolId,
        timestamp_ms: u64,
        data_timestamp_ms: u64,
        spread: OrdKey,
        bid_size: u32,
        ask_size: u32,
        imbalance: OrdKey,
        deviation: OrdKey,
    ) -> (r: Result<(), RejectReason>)
        requires
            old(self).wf(),
            timestamp_ms + old(self).cfg().ttl_ms <= u64::MAX,
            bid_size + ask_size <= u32::MAX,
        ensures
            final(self).wf(),
            final(self).cfg() == old(self).cfg(),
            forall|s: SymbolId| s != symbol ==> #[trigger] final(self).same_state(&*old(self), s),
            final(self).tracks(symbol),
            final(self).flicker_of(symbol) == old(self).flicker_of(symbol),
            r == guard_outcome(
                *old(self),
                symbol,
                timestamp_ms,
                data_timestamp_ms,
                spread,
                bid_size,
                ask_size,
                imbalance,
                deviation,
            ),
            old(self).latched(symbol, timestamp_ms) ==> {
                &&& r == Err::<(), RejectReason>(old(self).block_reason_of(symbol)->0)
                &&& final(self).last_update_of(symbol) == old(self).last_update_of(symbol)
                &&& final(self).blocked_until_of(symbol) == old(self).blocked_until_of(symbol)
                &&& final(self).block_reason_of(symbol) == old(self).block_reason_of(symbol)
            },
            !old(self).latched(symbol, timestamp_ms) ==> {
                &&& r == execution_verdict(
                    old(self).cfg(),
                    timestamp_ms,
                    data_timestamp_ms,
                    spread,
                    bid_size,
                    ask_size,
                    imbalance,
                    deviation,
                )
                &&& match r {
                    Ok(()) => {
                        &&& final(self).last_update_of(symbol) == timestamp_ms
                        &&& final(self).blocked_until_of(symbol) == old(self).blocked_until_of(symbol)
                        &&& final(self).block_reason_of(symbol) is None
                    },
                    Err(reason) => {
                        &&& final(self).last_update_of(symbol) == old(self).last_update_of(symbol)
                        &&& final(self).blocked_until_of(symbol) == timestamp_ms + old(self).cfg().ttl_ms
                        &&& final(self).block_reason_of(symbol) == Some(reason)
                    },
                }
            },
    {
        let mut st = self.take_state(symbol);
        if timestamp_ms < st.blocked_until {
            if let Some(reason) = st.block_reason {
                self.put_state(symbol, st);
                return Err(reason);
            }
        }
        let verdict = self.evaluate_quote(timestamp_ms, data_timestamp_ms, spread, bid_size, ask_size, imbalance, deviation);
        match verdict {
            Ok(()) => {
                st.last_update_ts = timestamp_ms;
                st.block_reason = None;
            },
            Err(reason) => {
                st.blocked_until = timestamp_ms + self.config.ttl_ms;
                st.block_reason = Some(reason);
            },
        }
        self.put_state(symbol, st);
        verdict
    }

    /// The checks of `check_execution` after the latch, in order.
    fn evaluate_quote(
        &self,
        timestamp_ms: u64,
        data_timestamp_ms: u64,
        spread: OrdKey,
        bid_size: u32,
        ask_size: u32,
        imbalance: OrdKey,
        deviation: OrdKey,
    ) -> (r: Result<(), RejectReason>)
        requires
            bid_size + ask_size <= u32::MAX,
        ensures
            r == execution_verdict(self.config, timestamp_ms, data_timestamp_ms, spread, bid_size, ask_size, imbalance, deviation),
    {
        if timestamp_ms.saturating_sub(data_timestamp_ms) > self.config.max_staleness_ms {
            return Err(RejectReason::GuardStale);
        }
        if spread.gt(self.config.max_spread_cents) || spread.le(OrdKey::zero()) {
            return Err(RejectReason::GuardSpread);
        }
        let total_liquidity = bid_size + ask_size;
        if total_liquidity < self.config.min_liquidity_shares {
            return Err(RejectReason::GuardL2Vacuum);
        }
        if total_liquidity > 0 {
            if imbalance.gt(self.config.max_imbalance_ratio) {
                return Err(RejectReason::GuardImbalance);
            }
        }
        if deviation.gt(self.config.slippage_tol_cents) {
            return Err(RejectReason::GuardSlippage);
        }
        Ok(())
    }
}

/// A tripped guard holds: until its time-to-live runs out, every check of
/// the symbol answers with the reason that tripped it, whatever the quote.
pub proof fn law_latch_holds(
    g: GuardEvaluator,
    symbol: SymbolId,
    t: u64,
    data_ts: u64,
    spread: OrdKey,
    bid_size: u32,
    ask_size: u32,
    imbalance: OrdKey,
    deviation: OrdKey,
)
    requires
        g.block_reason_of(symbol) is Some,
        t < g.blocked_until_of(symbol),
    ensures
        guard_outcome(g, symbol, t, data_ts, spread, bid_size, ask_size, imbalance, deviation)
            == Err::<(), RejectReason>(g.block_reason_of(symbol)->0),
{
}

} // verus!
