//! The fast-loop entry decision: the locked gate sequence a candidate entry
//! passes, the tape-score threshold, cold-start warm-up, position changes on
//! fills, halts and size reductions.
use vstd::prelude::*;
use crate::datetime::{market_day, market_day_boundary};
use crate::guards::{guard_outcome, GuardEvaluator};
use crate::symmap::{SymMap, SymSet};
use crate::types::{
    key_le, key_lt, ColdStartState, ContextState, OrdKey, RegimeState, RejectReason, Side, SymbolId,
    Tier,
};

verus! {

/// Tape-score thresholds by warm-up stage (keys of doubles).
#[derive(Debug, Clone, Copy)]
pub struct TapeThresholds {
    pub normal: OrdKey,
    pub post_target: OrdKey,
    pub warm: OrdKey,
}

/// The threshold a tier-A symbol must reach: the warm threshold while
/// warming up, the raised one once the daily target is reached, else the
/// normal one. No entry during cold start or outside tier A.
pub open spec fn tape_threshold_of(
    tier: Tier,
    cold_start: ColdStartState,
    daily_target_reached: bool,
    t: TapeThresholds,
) -> Result<OrdKey, RejectReason> {
    if tier != Tier::A {
        Err(RejectReason::Blocklist)
    } else {
        match cold_start {
            ColdStartState::WarmActive => Ok(t.warm),
            ColdStartState::FullActive => if daily_target_reached {
                Ok(t.post_target)
            } else {
                Ok(t.normal)
            },
            ColdStartState::ColdStart => Err(RejectReason::TapeScoreLow),
        }
    }
}

/// The threshold a symbol must reach (see [`tape_threshold_of`]).
pub fn tape_threshold(
    tier: Tier,
    cold_start: ColdStartState,
    daily_target_reached: bool,
    t: TapeThresholds,
) -> (r: Result<OrdKey, RejectReason>)
    ensures
        r == tape_threshold_of(tier, cold_start, daily_target_reached, t),
{
    match tier {
        Tier::A => match cold_start {
            ColdStartState::WarmActive => Ok(t.warm),
            ColdStartState::FullActive => {
                if daily_target_reached {
                    Ok(t.post_target)
                } else {
                    Ok(t.normal)
                }
            },
            ColdStartState::ColdStart => Err(RejectReason::TapeScoreLow),
        },
        _ => Err(RejectReason::Blocklist),
    }
}

/// What the fast loop knows of a candidate entry when it runs the gates.
/// Float-derived figures are keys of doubles computed by the caller.
#[derive(Debug, Clone, Copy)]
pub struct EntryGates {
    /// Entries are suspended (monitor-only mode).
    pub monitor_only: bool,
    pub tier: Tier,
    /// Verdict of the risk state's entry check.
    pub risk_check: Result<(), RejectReason>,
    /// Verdict of the price-range and liquidity gate (see
    /// [`crate::risk::check_liquidity`]).
    pub liquidity_check: Result<(), RejectReason>,
    pub regime: RegimeState,
    /// State of the daily context, if one was computed.
    pub context: Option<ContextState>,
    /// Multi-timeframe verdict, if one was computed.
    pub mtf_pass: Option<bool>,
    /// Price extended beyond VWAP plus twice the ATR.
    pub anti_chase: bool,
    pub is_reversal: bool,
    pub cold_start: ColdStartState,
    pub daily_target_reached: bool,
    pub thresholds: TapeThresholds,
    pub tape_score: OrdKey,
    pub expected_net: OrdKey,
    pub min_net_profit: OrdKey,
    /// The exposure check allows one more position.
    pub exposure_ok: bool,
}

/// The quote the microstructure guards judge.
#[derive(Debug, Clone, Copy)]
pub struct GuardQuote {
    pub symbol: SymbolId,
    pub timestamp: u64,
    pub data_timestamp: u64,
    pub spread: OrdKey,
    pub bid_size: u32,
    pub ask_size: u32,
    pub imbalance: OrdKey,
    pub deviation: OrdKey,
}

/// The gates before the microstructure guards, in order.
pub open spec fn gates_before_guards(g: EntryGates) -> Result<(), RejectReason> {
    if g.monitor_only {
        Err(RejectReason::MonitorOnly)
    } else if g.tier != Tier::A {
        Err(RejectReason::Blocklist)
    } else if g.risk_check is Err {
        g.risk_check
    } else if g.liquidity_check is Err {
        g.liquidity_check
    } else if g.regime != RegimeState::Normal {
        Err(RejectReason::Regime)
    } else if !(g.context == Some(ContextState::Play)) {
        Err(RejectReason::DailyContext)
    } else if !(g.mtf_pass == Some(true)) {
        Err(RejectReason::MtfVeto)
    } else if g.anti_chase {
        Err(RejectReason::AntiChase)
    } else {
        Ok(())
    }
}

/// The gates after the microstructure guards, in order.
pub open spec fn gates_after_guards(g: EntryGates) -> Result<(), RejectReason> {
    if g.is_reversal {
        Err(RejectReason::TapeReversal)
    } else {
        match tape_threshold_of(g.tier, g.cold_start, g.daily_target_reached, g.thresholds) {
            Err(e) => Err(e),
            Ok(th) => if key_lt(g.tape_score, th) {
                Err(RejectReason::TapeScoreLow)
            } else if key_le(g.expected_net, g.min_net_profit) {
                Err(RejectReason::NetNegative)
            } else if !g.exposure_ok {
                Err(RejectReason::Exposure)
            } else {
                Ok(())
            },
        }
    }
}

/// Decides whether a proposed entry passes every gate, in their fixed order.
/// The microstructure guards are consulted, and may latch, only when every
/// earlier gate passed; the first failing gate gives the reason.
pub fn evaluate_entry(gates: &EntryGates, guards: &mut GuardEvaluator, quote: GuardQuote) -> (r: Result<(), RejectReason>)
    requires
        old(guards).wf(),
        quote.timestamp + old(guards).cfg().ttl_ms <= u64::MAX,
        quote.bid_size + quote.ask_size <= u32::MAX,
    ensures
        final(guards).wf(),
        final(guards).cfg() == old(guards).cfg(),
        gates_before_guards(*gates) is Err ==> r == gates_before_guards(*gates) && *final(guards) == *old(guards),
        gates_before_guards(*gates) is Ok ==> {
            let g = guard_outcome(
                *old(guards),
                quote.symbol,
                quote.timestamp,
                quote.data_timestamp,
                quote.spread,
                quote.bid_size,
                quote.ask_size,
                quote.imbalance,
                quote.deviation,
            );
            &&& g is Err ==> r == g
            &&& g is Ok ==> r == gates_after_guards(*gates)
        },
{
    if gates.monitor_only {
        return Err(RejectReason::MonitorOnly);
    }
    if gates.tier != Tier::A {
        return Err(RejectReason::Blocklist);
    }
    match gates.risk_check {
        Err(e) => {
            return Err(e);
        },
        Ok(()) => {},
    }
    match gates.liquidity_check {
        Err(e) => {
            return Err(e);
        },
        Ok(()) => {},
    }
    if gates.regime != RegimeState::Normal {
        return Err(RejectReason::Regime);
    }
    match gates.context {
        Some(ContextState::Play) => {},
        _ => {
            return Err(RejectReason::DailyContext);
        },
    }
    match gates.mtf_pass {
        Some(true) => {},
        _ => {
            return Err(RejectReason::MtfVeto);
        },
    }
    if gates.anti_chase {
        return Err(RejectReason::AntiChase);
    }
    let guard_result = guards.check_execution(
        quote.symbol,
        quote.timestamp,
        quote.data_timestamp,
        quote.spread,
        quote.bid_size,
        quote.ask_size,
        quote.imbalance,
        quote.deviation,
    );
    match guard_result {
        Err(e) => {
            return Err(e);
        },
        Ok(()) => {},
    }
    if gates.is_reversal {
        return Err(RejectReason::TapeReversal);
    }
    let threshold = match tape_threshold(gates.tier, gates.cold_start, gates.daily_target_reached, gates.thresholds) {
        Ok(t) => t,
        Err(e) => {
            return Err(e);
        },
    };
    if gates.tape_score.lt(threshold) {
        return Err(RejectReason::TapeScoreLow);
    }
    if gates.expected_net.le(gates.min_net_profit) {
        return Err(RejectReason::NetNegative);
    }
    if !gates.exposure_ok {
        return Err(RejectReason::Exposure);
    }
    Ok(())
}

/// An entry passes only when every gate passes: the mode, the tier, the
/// risk check, price range and liquidity, the regime, the daily context, the timeframes, the chase
/// filter, the tape score, the expected net and the exposure.
pub proof fn law_entry_needs_every_gate(g: EntryGates)
    requires
        gates_before_guards(g) is Ok,
        gates_after_guards(g) is Ok,
    ensures
        !g.monitor_only,
        g.tier == Tier::A,
        g.risk_check is Ok,
        g.liquidity_check is Ok,
        g.regime == RegimeState::Normal,
        g.context == Some(ContextState::Play),
        g.mtf_pass == Some(true),
        !g.anti_chase,
        !g.is_reversal,
        g.cold_start != ColdStartState::ColdStart,
        !key_le(g.expected_net, g.min_net_profit),
        g.exposure_ok,
{
}

/// Ticks in the warm state after which a symbol is fully active.
pub const WARM_TICKS_TO_FULL: u64 = 100;

/// The warm-up stage after a tick: a surge makes the symbol fully active at
/// once; otherwise cold start moves to warm (count reset), and the warm stage
/// turns fully active on its hundredth tick.
pub open spec fn cold_start_next(state: ColdStartState, ticks: u64, is_surge: bool) -> (ColdStartState, u64) {
    if is_surge {
        (ColdStartState::FullActive, ticks)
    } else {
        match state {
            ColdStartState::ColdStart => (ColdStartState::WarmActive, 0),
            ColdStartState::WarmActive => if ticks + 1 >= WARM_TICKS_TO_FULL {
                (ColdStartState::FullActive, (ticks + 1) as u64)
            } else {
                (ColdStartState::WarmActive, (ticks + 1) as u64)
            },
            ColdStartState::FullActive => (ColdStartState::FullActive, ticks),
        }
    }
}

/// The warm-up stage and warm-tick count after a tick.
pub fn update_cold_start(state: ColdStartState, ticks_in_warm_state: u64, is_surge: bool) -> (r: (ColdStartState, u64))
    requires
        !is_surge && state == ColdStartState::WarmActive ==> ticks_in_warm_state < u64::MAX,
    ensures
        r == cold_start_next(state, ticks_in_warm_state, is_surge),
{
    if is_surge {
        return (ColdStartState::FullActive, ticks_in_warm_state);
    }
    match state {
        ColdStartState::ColdStart => (ColdStartState::WarmActive, 0),
        ColdStartState::WarmActive => {
            let ticks = ticks_in_warm_state + 1;
            if ticks >= WARM_TICKS_TO_FULL {
                (ColdStartState::FullActive, ticks)
            } else {
                (ColdStartState::WarmActive, ticks)
            }
        },
        ColdStartState::FullActive => (ColdStartState::FullActive, ticks_in_warm_state),
    }
}

/// Warm-up never goes backwards, except by an explicit reset.
pub proof fn law_warm_up_monotone(state: ColdStartState, ticks: u64, is_surge: bool)
    ensures
        state == ColdStartState::FullActive ==> cold_start_next(state, ticks, is_surge).0 == ColdStartState::FullActive,
        state == ColdStartState::WarmActive ==> cold_start_next(state, ticks, is_surge).0 != ColdStartState::ColdStart,
        is_surge ==> cold_start_next(state, ticks, is_surge).0 == ColdStartState::FullActive,
{
}

/// How a fill changes a position.
#[derive(Debug, Clone, Copy, PartialEq, Eq, Structural)]
pub enum FillKind {
    /// From flat: the fill opens a position.
    Open,
    /// Same side: the position grows.
    Add,
    /// Opposite side, smaller than the position.
    Reduce,
    /// Opposite side, exactly the position.
    Close,
    /// Opposite side, larger than the position: it closes and reopens.
    Flip,
}

/// Effect of a fill on a signed position.
#[derive(Debug, Clone, Copy, PartialEq, Eq, Structural)]
pub struct FillEffect {
    pub new_position: i32,
    /// Shares of the old position that the fill closes.
    pub closed_qty: u32,
    pub kind: FillKind,
}

/// The signed size of a fill: buys add, sells subtract.
pub open spec fn signed_fill(side: Side, size: u32) -> int {
    if side == Side::Bid {
        size as int
    } else {
        -(size as int)
    }
}

/// Absolute value.
pub open spec fn abs_int(x: int) -> int {
    if x < 0 {
        -x
    } else {
        x
    }
}

/// The effect of a fill of `size` on `side` against `position`.
pub open spec fn fill_effect_of(position: i32, side: Side, size: u32) -> FillEffect {
    let f = signed_fill(side, size);
    let np = (position + f) as i32;
    if position == 0 {
        FillEffect { new_position: np, closed_qty: 0, kind: FillKind::Open }
    } else if (position > 0 && f > 0) || (position < 0 && f < 0) {
        FillEffect { new_position: np, closed_qty: 0, kind: FillKind::Add }
    } else {
        let closed = if abs_int(position as int) < abs_int(f) { abs_int(position as int) } else { abs_int(f) };
        FillEffect {
            new_position: np,
            closed_qty: closed as u32,
            kind: if position + f == 0 {
                FillKind::Close
            } else if (position > 0 && position + f < 0) || (position < 0 && position + f > 0) {
                FillKind::Flip
            } else {
                FillKind::Reduce
            },
        }
    }
}

/// The effect of a fill on a position. The caller updates the cost basis:
/// the fill price on `Open` and `Flip`, the weighted average on `Add`,
/// unchanged on `Reduce`, zero on `Close`.
pub fn apply_fill(position: i32, side: Side, size: u32) -> (e: FillEffect)
    requires
        size <= i32::MAX,
        i32::MIN <= position + signed_fill(side, size) <= i32::MAX,
    ensures
        e == fill_effect_of(position, side, size),
{
    let fill_size = size as i32;
    let signed = match side {
        Side::Bid => fill_size,
        Side::Ask => -fill_size,
    };
    let np = position + signed;
    if position == 0 {
        return FillEffect { new_position: np, closed_qty: 0, kind: FillKind::Open };
    }
    let same_side = (position > 0 && signed > 0) || (position < 0 && signed < 0);
    if same_side {
        return FillEffect { new_position: np, closed_qty: 0, kind: FillKind::Add };
    }
    let abs_pos: i64 = if position < 0 { -(position as i64) } else { position as i64 };
    let abs_fill: i64 = if signed < 0 { -(signed as i64) } else { signed as i64 };
    let closed: i64 = if abs_pos < abs_fill { abs_pos } else { abs_fill };
    let kind = if np == 0 {
        FillKind::Close
    } else if (position > 0 && np < 0) || (position < 0 && np > 0) {
        FillKind::Flip
    } else {
        FillKind::Reduce
    };
    FillEffect { new_position: np, closed_qty: closed as u32, kind }
}

/// A fill moves the position by exactly its signed size, and closes no more
/// shares than the position held or the fill carried.
pub proof fn law_fill_conserves_shares(position: i32, side: Side, size: u32)
    requires
        size <= i32::MAX,
        i32::MIN <= position + signed_fill(side, size) <= i32::MAX,
    ensures
        fill_effect_of(position, side, size).new_position == position + signed_fill(side, size),
        fill_effect_of(position, side, size).closed_qty <= abs_int(position as int),
        fill_effect_of(position, side, size).closed_qty <= size,
        fill_effect_of(position, side, size).kind == FillKind::Close ==> fill_effect_of(position, side, size).new_position == 0,
{
}

/// Seconds a halt must last before the emergency exit on resumption.
pub const HALT_EXIT_SECS: u64 = 300;

/// What to do with a tick of a symbol that was halted.
#[derive(Debug, Clone, Copy, PartialEq, Eq, Structural)]
pub enum HaltResume {
    /// The symbol was not halted.
    NotHalted,
    /// A short halt: trading goes on.
    Resumed,
    /// A halt of five minutes or more: exit any long position and disable the
    /// symbol for the session.
    EmergencyExit,
}

/// Halts seen by the fast loop and the symbols disabled for the session.
pub struct HaltTracker {
    halted: SymMap<u64>,
    disabled: SymSet,
}

impl HaltTracker {
    /// Symbols halted and the time of their halt.
    pub closed spec fn halts(&self) -> Map<SymbolId, u64> {
        self.halted@
    }

    /// Symbols disabled for the session.
    pub closed spec fn disabled_set(&self) -> Set<SymbolId> {
        self.disabled@
    }

    pub closed spec fn wf(&self) -> bool {
        self.halted.wf() && self.disabled.wf()
    }

    pub fn new() -> (t: Self)
        ensures
            t.wf(),
            t.halts() == Map::<SymbolId, u64>::empty(),
            t.disabled_set() == Set::<SymbolId>::empty(),
    {
        HaltTracker { halted: SymMap::new(), disabled: SymSet::new() }
    }

    /// Records a halt of `symbol` at `ts_src`.
    pub fn on_halt(&mut self, symbol: SymbolId, ts_src: u64)
        requires
            old(self).wf(),
        ensures
            final(self).wf(),
            final(self).halts() == old(self).halts().insert(symbol, ts_src),
            final(self).disabled_set() == old(self).disabled_set(),
            old(self).disabled_set().subset_of(final(self).disabled_set()),
    {
        self.halted.insert(symbol, ts_src);
    }

    /// A tick of `symbol` at `ts_src`: a recorded halt ends, and one that
    /// lasted five minutes or more disables the symbol for the session.
    pub fn on_tick(&mut self, symbol: SymbolId, ts_src: u64) -> (r: HaltResume)
        requires
            old(self).wf(),
        ensures
            final(self).wf(),
            final(self).halts() == old(self).halts().remove(symbol),
            old(self).disabled_set().subset_of(final(self).disabled_set()),
            !old(self).halts().contains_key(symbol) ==> r == HaltResume::NotHalted
                && final(self).disabled_set() == old(self).disabled_set(),
            old(self).halts().contains_key(symbol) ==> {
                let since = old(self).halts()[symbol];
                let secs = (if ts_src >= since { ts_src - since } else { 0 }) / 1_000_000;
                if secs >= HALT_EXIT_SECS {
                    r == HaltResume::EmergencyExit && final(self).disabled_set() == old(self).disabled_set().insert(
                        symbol,
                    )
                } else {
                    r == HaltResume::Resumed && final(self).disabled_set() == old(self).disabled_set()
                }
            },
    {
        match self.halted.remove(&symbol) {
            None => HaltResume::NotHalted,
            Some(halt_ts) => {
                let secs = ts_src.saturating_sub(halt_ts) / 1_000_000;
                if secs >= HALT_EXIT_SECS {
                    self.disabled.insert(symbol);
                    HaltResume::EmergencyExit
                } else {
                    HaltResume::Resumed
                }
            },
        }
    }

    /// Whether `symbol` is disabled for the rest of the session.
    pub fn is_disabled(&self, symbol: SymbolId) -> (b: bool)
        requires
            self.wf(),
        ensures
            b == self.disabled_set().contains(symbol),
    {
        self.disabled.contains(&symbol)
    }
}

/// Buys of the current day per symbol, to recognise day trades.
pub struct DayTradeTracker {
    buys: SymMap<u32>,
}

impl DayTradeTracker {
    /// The market day of the last unmatched buy of each symbol.
    pub closed spec fn buy_days(&self) -> Map<SymbolId, u32> {
        self.buys@
    }

    pub closed spec fn wf(&self) -> bool {
        self.buys.wf()
    }

    pub fn new() -> (t: Self)
        ensures
            t.wf(),
            t.buy_days() == Map::<SymbolId, u32>::empty(),
    {
        DayTradeTracker { buys: SymMap::new() }
    }

    /// A fill of `symbol`: a buy is remembered with its US-Eastern market day;
    /// a sell on the market day of the remembered buy completes a day trade,
    /// whose day is returned.
    pub fn on_fill(&mut self, symbol: SymbolId, side: Side, ts_src: u64) -> (r: Option<u32>)
        requires
            old(self).wf(),
        ensures
            final(self).wf(),
            side == Side::Bid ==> r is None && final(self).buy_days() == old(self).buy_days().insert(
                symbol,
                market_day(ts_src),
            ),
            side == Side::Ask ==> if old(self).buy_days().contains_key(symbol) && old(self).buy_days()[symbol]
                == market_day(ts_src) {
                r == Some(market_day(ts_src)) && final(self).buy_days() == old(self).buy_days().remove(symbol)
            } else {
                r is None && final(self).buy_days() == old(self).buy_days()
            },
    {
        let today = market_day_boundary(ts_src);
        match side {
            Side::Bid => {
                self.buys.insert(symbol, today);
                None
            },
            Side::Ask => {
                let same_day = match self.buys.get(symbol) {
                    Some(d) => *d == today,
                    None => false,
                };
                if same_day {
                    self.buys.remove(&symbol);
                    Some(today)
                } else {
                    None
                }
            },
        }
    }
}

/// Size after the daily reductions: halved (at least one share) once the
/// daily target is reached, then quartered (at least one share) once the
/// day's gain reaches a tenth of the capital.
pub open spec fn reduced_size_of(qty: u32, daily_target_reached: bool, ten_pct_gain_reached: bool) -> u32 {
    let a = if daily_target_reached { if qty / 2 >= 1 { qty / 2 } else { 1 } } else { qty };
    if ten_pct_gain_reached {
        if a / 4 >= 1 { a / 4 } else { 1 }
    } else {
        a
    }
}

/// The position size after the daily reductions (see [`reduced_size_of`]).
pub fn reduce_size(qty: u32, daily_target_reached: bool, ten_pct_gain_reached: bool) -> (r: u32)
    ensures
        r == reduced_size_of(qty, daily_target_reached, ten_pct_gain_reached),
{
    let mut q = qty;
    if daily_target_reached {
        q = if q / 2 >= 1 { q / 2 } else { 1 };
    }
    if ten_pct_gain_reached {
        q = if q / 4 >= 1 { q / 4 } else { 1 };
    }
    q
}

} // verus!
