//! Multi-timeframe confirmation: weekly trend, daily resistance, four-hour
//! structure and fifteen-minute pullback. Stale or never-set inputs count as
//! unconfirmed.
use vstd::prelude::*;
use crate::types::{key_lt, MtfAnalysis, OrdKey, SymbolId, KEY_MAX_FINITE, KEY_ZERO};

verus! {

/// Evaluation settings.
#[derive(Debug, Clone, Copy)]
pub struct MtfParams {
    /// Pass only when all four confirmations hold (else three suffice).
    pub require_all: bool,
    /// Age in milliseconds past which an input is stale.
    pub stale_data_threshold_ms: u64,
}

impl Default for MtfParams {
    /// Strict mode, one-hour staleness.
    fn default() -> (p: Self)
        ensures
            p.require_all,
            p.stale_data_threshold_ms == 3_600_000,
    {
        MtfParams { require_all: true, stale_data_threshold_ms: 3_600_000 }
    }
}

/// Latest multi-timeframe inputs of one symbol. Prices are keys of doubles;
/// timestamps are microseconds, 0 meaning never set.
pub struct MtfEngine {
    pub params: MtfParams,
    pub symbol_id: SymbolId,
    pub weekly_ema: OrdKey,
    pub daily_resistance: OrdKey,
    pub structure_4h_bullish: bool,
    pub pullback_15m_valid: bool,
    pub last_weekly_ema_ts: u64,
    pub last_daily_res_ts: u64,
    pub last_4h_ts: u64,
    pub last_15m_ts: u64,
    pub current_price: OrdKey,
}

/// An input stamped `last_ts` is stale at `current_ts`: never set, or older
/// than the threshold in whole milliseconds.
pub open spec fn is_stale(current_ts: u64, last_ts: u64, threshold_ms: u64) -> bool {
    last_ts == 0 || (if current_ts >= last_ts { current_ts - last_ts } else { 0 }) / 1000 > threshold_ms
}

/// The confirmations and the verdict of an engine at `ts`.
pub open spec fn mtf_analysis(e: MtfEngine, ts: u64) -> MtfAnalysis {
    let th = e.params.stale_data_threshold_ms;
    let weekly = !is_stale(ts, e.last_weekly_ema_ts, th) && key_lt(OrdKey(KEY_ZERO), e.weekly_ema)
        && key_lt(e.weekly_ema, e.current_price);
    let daily = !is_stale(ts, e.last_daily_res_ts, th) && key_lt(OrdKey(KEY_ZERO), e.daily_resistance)
        && key_lt(e.daily_resistance, OrdKey(KEY_MAX_FINITE)) && key_lt(e.daily_resistance, e.current_price);
    let h4 = !is_stale(ts, e.last_4h_ts, th) && e.structure_4h_bullish;
    let m15 = !is_stale(ts, e.last_15m_ts, th) && e.pullback_15m_valid;
    let score = (if weekly { 1int } else { 0 }) + (if daily { 1int } else { 0 }) + (if h4 { 1int } else { 0 })
        + (if m15 { 1int } else { 0 });
    MtfAnalysis {
        weekly_trend_confirmed: weekly,
        daily_resistance_cleared: daily,
        structure_4h_bullish: h4,
        pullback_15m_valid: m15,
        mtf_pass: if e.params.require_all { score == 4 } else { score >= 3 },
    }
}

/// The engine with only the price changed.
pub open spec fn with_price(e: MtfEngine, price: OrdKey) -> MtfEngine {
    MtfEngine { current_price: price, ..e }
}

impl MtfEngine {
    /// An engine with no input yet; resistance starts at the largest double.
    pub fn new(symbol_id: SymbolId, params: MtfParams) -> (e: Self)
        ensures
            e.params == params,
            e.symbol_id == symbol_id,
            e.weekly_ema == OrdKey(KEY_ZERO),
            e.daily_resistance == OrdKey(KEY_MAX_FINITE),
            !e.structure_4h_bullish,
            !e.pullback_15m_valid,
            e.last_weekly_ema_ts == 0,
            e.last_daily_res_ts == 0,
            e.last_4h_ts == 0,
            e.last_15m_ts == 0,
            e.current_price == OrdKey(KEY_ZERO),
    {
        MtfEngine {
            params,
            symbol_id,
            weekly_ema: OrdKey::zero(),
            daily_resistance: OrdKey(KEY_MAX_FINITE),
            structure_4h_bullish: false,
            pullback_15m_valid: false,
            last_weekly_ema_ts: 0,
            last_daily_res_ts: 0,
            last_4h_ts: 0,
            last_15m_ts: 0,
            current_price: OrdKey::zero(),
        }
    }

    pub fn update_price(&mut self, price: OrdKey)
        ensures
            *final(self) == with_price(*old(self), price),
    {
        self.current_price = price;
    }

    /// Takes a weekly EMA; a value that is not above zero is ignored.
    pub fn update_weekly_ema(&mut self, ema: OrdKey, ts_src: u64)
        ensures
            *final(self) == (if key_lt(OrdKey(KEY_ZERO), ema) {
                MtfEngine { weekly_ema: ema, last_weekly_ema_ts: ts_src, ..*old(self) }
            } else {
                *old(self)
            }),
    {
        if ema.gt(OrdKey::zero()) {
            self.weekly_ema = ema;
            self.last_weekly_ema_ts = ts_src;
        }
    }

    /// Takes a daily resistance; a value that is not above zero is ignored.
    pub fn update_daily_resistance(&mut self, resistance: OrdKey, ts_src: u64)
        ensures
            *final(self) == (if key_lt(OrdKey(KEY_ZERO), resistance) {
                MtfEngine { daily_resistance: resistance, last_daily_res_ts: ts_src, ..*old(self) }
            } else {
                *old(self)
            }),
    {
        if resistance.gt(OrdKey::zero()) {
            self.daily_resistance = resistance;
            self.last_daily_res_ts = ts_src;
        }
    }

    pub fn update_4h_structure(&mut self, is_bullish: bool, ts_src: u64)
        ensures
            *final(self) == (MtfEngine { structure_4h_bullish: is_bullish, last_4h_ts: ts_src, ..*old(self) }),
    {
        self.structure_4h_bullish = is_bullish;
        self.last_4h_ts = ts_src;
    }

    pub fn update_15m_pullback(&mut self, is_valid: bool, ts_src: u64)
        ensures
            *final(self) == (MtfEngine { pullback_15m_valid: is_valid, last_15m_ts: ts_src, ..*old(self) }),
    {
        self.pullback_15m_valid = is_valid;
        self.last_15m_ts = ts_src;
    }

    fn stale(&self, current_ts: u64, last_ts: u64) -> (b: bool)
        ensures
            b == is_stale(current_ts, last_ts, self.params.stale_data_threshold_ms),
    {
        if last_ts == 0 {
            return true;
        }
        let elapsed_ms = current_ts.saturating_sub(last_ts) / 1000;
        elapsed_ms > self.params.stale_data_threshold_ms
    }

    /// The confirmations at `current_ts` (microseconds) and whether they pass.
    pub fn evaluate(&self, current_ts: u64) -> (a: MtfAnalysis)
        ensures
            a == mtf_analysis(*self, current_ts),
    {
        let ema_stale = self.stale(current_ts, self.last_weekly_ema_ts);
        let res_stale = self.stale(current_ts, self.last_daily_res_ts);
        let h4_stale = self.stale(current_ts, self.last_4h_ts);
        let m15_stale = self.stale(current_ts, self.last_15m_ts);
        let weekly_trend_confirmed = if !ema_stale && self.weekly_ema.gt(OrdKey::zero()) {
            self.current_price.gt(self.weekly_ema)
        } else {
            false
        };
        let daily_resistance_cleared = if !res_stale && self.daily_resistance.gt(OrdKey::zero())
            && self.daily_resistance.lt(OrdKey(KEY_MAX_FINITE)) {
            self.current_price.gt(self.daily_resistance)
        } else {
            false
        };
        let structure_4h_bullish = if !h4_stale {
            self.structure_4h_bullish
        } else {
            false
        };
        let pullback_15m_valid = if !m15_stale {
            self.pullback_15m_valid
        } else {
            false
        };
        let mut score: u32 = 0;
        if weekly_trend_confirmed {
            score = score + 1;
        }
        if daily_resistance_cleared {
            score = score + 1;
        }
        if structure_4h_bullish {
            score = score + 1;
        }
        if pullback_15m_valid {
            score = score + 1;
        }
        let mtf_pass = if self.params.require_all {
            score == 4
        } else {
            score >= 3
        };
        MtfAnalysis {
            weekly_trend_confirmed,
            daily_resistance_cleared,
            structure_4h_bullish,
            pullback_15m_valid,
            mtf_pass,
        }
    }
}

/// A pass needs every confirmation in strict mode and three of four
/// otherwise; an input that is stale at `ts` never confirms.
pub proof fn law_mtf_pass(e: MtfEngine, ts: u64)
    ensures
        mtf_analysis(e, ts).mtf_pass && e.params.require_all ==> {
            &&& mtf_analysis(e, ts).weekly_trend_confirmed
            &&& mtf_analysis(e, ts).daily_resistance_cleared
            &&& mtf_analysis(e, ts).structure_4h_bullish
            &&& mtf_analysis(e, ts).pullback_15m_valid
        },
        is_stale(ts, e.last_weekly_ema_ts, e.params.stale_data_threshold_ms) ==> !mtf_analysis(e, ts).weekly_trend_confirmed,
        is_stale(ts, e.last_daily_res_ts, e.params.stale_data_threshold_ms) ==> !mtf_analysis(e, ts).daily_resistance_cleared,
        is_stale(ts, e.last_4h_ts, e.params.stale_data_threshold_ms) ==> !mtf_analysis(e, ts).structure_4h_bullish,
        is_stale(ts, e.last_15m_ts, e.params.stale_data_threshold_ms) ==> !mtf_analysis(e, ts).pullback_15m_valid,
        e.last_weekly_ema_ts == 0 && e.last_daily_res_ts == 0 ==> !mtf_analysis(e, ts).mtf_pass,
{
}

} // verus!
