//! Market regime (Normal, Caution, Risk-Off) from SPY volatility, market
//! breadth, spread widening, calendar risk and data quality.
use vstd::prelude::*;
use crate::types::{key_le, key_lt, DataQuality, OrdKey, RegimeState, KEY_ZERO};

verus! {

/// Regime thresholds; all are keys of doubles (fractions).
#[derive(Debug, Clone, Copy)]
pub struct RegimeParams {
    /// SPY one-minute ATR above which the regime leaves Normal.
    pub atr_normal_max: OrdKey,
    /// SPY one-minute ATR from which the regime is Risk-Off.
    pub atr_caution_max: OrdKey,
    /// Breadth below which the regime leaves Normal.
    pub breadth_normal_min: OrdKey,
    /// Breadth at or below which the regime is Risk-Off.
    pub breadth_caution_min: OrdKey,
    /// Spread widening from which the regime is at least Caution.
    pub widening_caution_pct: OrdKey,
    /// Spread widening from which the regime is Risk-Off.
    pub widening_riskoff_pct: OrdKey,
}

/// Keys of 0.0018, 0.0028, 0.45, 0.35, 0.25 and 0.50.
pub const KEY_0_0018: u64 = 0xBF5D_7DBF_487F_CB92u64;
pub const KEY_0_0028: u64 = 0xBF66_F006_8DB8_BAC7u64;
pub const KEY_0_45: u64 = 0xBFDC_CCCC_CCCC_CCCDu64;
pub const KEY_0_35: u64 = 0xBFD6_6666_6666_6666u64;
pub const KEY_0_25: u64 = 0xBFD0_0000_0000_0000u64;
pub const KEY_0_50: u64 = 0xBFE0_0000_0000_0000u64;

impl Default for RegimeParams {
    /// ATR 0.18% / 0.28%, breadth 45% / 35%, widening 25% / 50%.
    fn default() -> (p: Self)
        ensures
            p.atr_normal_max == OrdKey(KEY_0_0018),
            p.atr_caution_max == OrdKey(KEY_0_0028),
            p.breadth_normal_min == OrdKey(KEY_0_45),
            p.breadth_caution_min == OrdKey(KEY_0_35),
            p.widening_caution_pct == OrdKey(KEY_0_25),
            p.widening_riskoff_pct == OrdKey(KEY_0_50),
    {
        RegimeParams {
            atr_normal_max: OrdKey(KEY_0_0018),
            atr_caution_max: OrdKey(KEY_0_0028),
            breadth_normal_min: OrdKey(KEY_0_45),
            breadth_caution_min: OrdKey(KEY_0_35),
            widening_caution_pct: OrdKey(KEY_0_25),
            widening_riskoff_pct: OrdKey(KEY_0_50),
        }
    }
}

/// The regime sensors. `spread_widening` is `(current - baseline) / baseline`
/// of the SPY spread, computed by the caller whenever either changes.
#[derive(Debug, Clone, Copy)]
pub struct RegimeInputs {
    pub spy_atr_1m: OrdKey,
    pub market_breadth: OrdKey,
    pub spy_spread_baseline: OrdKey,
    pub avg_spread_current: OrdKey,
    pub spread_widening: OrdKey,
    pub is_calendar_risk: bool,
    pub data_quality: DataQuality,
}

/// The regime of the given inputs.
pub open spec fn regime_of(p: RegimeParams, i: RegimeInputs) -> RegimeState {
    let widening = if key_lt(OrdKey(KEY_ZERO), i.spy_spread_baseline) {
        i.spread_widening
    } else {
        OrdKey(KEY_ZERO)
    };
    if i.data_quality != DataQuality::Normal {
        RegimeState::RiskOff
    } else if key_le(p.atr_caution_max, i.spy_atr_1m) || key_le(i.market_breadth, p.breadth_caution_min)
        || key_le(p.widening_riskoff_pct, widening) {
        RegimeState::RiskOff
    } else if i.is_calendar_risk {
        RegimeState::Caution
    } else if key_lt(p.atr_normal_max, i.spy_atr_1m) || key_lt(i.market_breadth, p.breadth_normal_min)
        || key_le(p.widening_caution_pct, widening) {
        RegimeState::Caution
    } else {
        RegimeState::Normal
    }
}

/// The regime engine: its sensors and the regime they give.
pub struct RegimeEngine {
    params: RegimeParams,
    inputs: RegimeInputs,
    current_state: RegimeState,
}

impl RegimeEngine {
    pub closed spec fn params(&self) -> RegimeParams {
        self.params
    }

    pub closed spec fn inputs(&self) -> RegimeInputs {
        self.inputs
    }

    /// The regime last computed: Normal until the first sensor update, then
    /// the one the sensors give.
    pub closed spec fn current(&self) -> RegimeState {
        self.current_state
    }

    /// Sensors start neutral: no volatility, breadth 45%, no spread, good
    /// data; the regime starts Normal.
    pub fn new(params: RegimeParams) -> (e: Self)
        ensures
            e.current() == RegimeState::Normal,
            e.params() == params,
            e.inputs() == (RegimeInputs {
                spy_atr_1m: OrdKey(KEY_ZERO),
                market_breadth: OrdKey(KEY_0_45),
                spy_spread_baseline: OrdKey(KEY_ZERO),
                avg_spread_current: OrdKey(KEY_ZERO),
                spread_widening: OrdKey(KEY_ZERO),
                is_calendar_risk: false,
                data_quality: DataQuality::Normal,
            }),
    {
        let inputs = RegimeInputs {
            spy_atr_1m: OrdKey::zero(),
            market_breadth: OrdKey(KEY_0_45),
            spy_spread_baseline: OrdKey::zero(),
            avg_spread_current: OrdKey::zero(),
            spread_widening: OrdKey::zero(),
            is_calendar_risk: false,
            data_quality: DataQuality::Normal,
        };
        RegimeEngine { params, inputs, current_state: RegimeState::Normal }
    }

    /// Sets the SPY spread baseline, with the widening of the current spread over it.
    pub fn set_spread_baseline(&mut self, baseline: OrdKey, widening: OrdKey)
        ensures
            final(self).current() == regime_of(final(self).params(), final(self).inputs()),
            final(self).params() == old(self).params(),
            final(self).inputs() == (RegimeInputs {
                spy_spread_baseline: baseline,
                spread_widening: widening,
                ..old(self).inputs()
            }),
    {
        self.inputs.spy_spread_baseline = baseline;
        self.inputs.spread_widening = widening;
        self.recalc();
    }

    /// Sets the current average spread, with its widening over the baseline.
    pub fn update_current_spread(&mut self, current: OrdKey, widening: OrdKey)
        ensures
            final(self).current() == regime_of(final(self).params(), final(self).inputs()),
            final(self).params() == old(self).params(),
            final(self).inputs() == (RegimeInputs {
                avg_spread_current: current,
                spread_widening: widening,
                ..old(self).inputs()
            }),
    {
        self.inputs.avg_spread_current = current;
        self.inputs.spread_widening = widening;
        self.recalc();
    }

    pub fn update_atr(&mut self, spy_atr: OrdKey)
        ensures
            final(self).current() == regime_of(final(self).params(), final(self).inputs()),
            final(self).params() == old(self).params(),
            final(self).inputs() == (RegimeInputs { spy_atr_1m: spy_atr, ..old(self).inputs() }),
    {
        self.inputs.spy_atr_1m = spy_atr;
        self.recalc();
    }

    pub fn update_breadth(&mut self, breadth: OrdKey)
        ensures
            final(self).current() == regime_of(final(self).params(), final(self).inputs()),
            final(self).params() == old(self).params(),
            final(self).inputs() == (RegimeInputs { market_breadth: breadth, ..old(self).inputs() }),
    {
        self.inputs.market_breadth = breadth;
        self.recalc();
    }

    pub fn update_calendar_risk(&mut self, is_risk: bool)
        ensures
            final(self).current() == regime_of(final(self).params(), final(self).inputs()),
            final(self).params() == old(self).params(),
            final(self).inputs() == (RegimeInputs { is_calendar_risk: is_risk, ..old(self).inputs() }),
    {
        self.inputs.is_calendar_risk = is_risk;
        self.recalc();
    }

    pub fn update_data_quality(&mut self, quality: DataQuality)
        ensures
            final(self).current() == regime_of(final(self).params(), final(self).inputs()),
            final(self).params() == old(self).params(),
            final(self).inputs() == (RegimeInputs { data_quality: quality, ..old(self).inputs() }),
    {
        self.inputs.data_quality = quality;
        self.recalc();
    }

    fn recalc(&mut self)
        ensures
            final(self).current() == regime_of(final(self).params(), final(self).inputs()),
            final(self).params == old(self).params,
            final(self).inputs == old(self).inputs,
    {
        self.current_state = Self::state_of(&self.params, &self.inputs);
    }

    fn state_of(p: &RegimeParams, i: &RegimeInputs) -> (s: RegimeState)
        ensures
            s == regime_of(*p, *i),
    {
        if i.data_quality != DataQuality::Normal {
            return RegimeState::RiskOff;
        }
        let widening = if i.spy_spread_baseline.gt(OrdKey::zero()) {
            i.spread_widening
        } else {
            OrdKey::zero()
        };
        if i.spy_atr_1m.ge(p.atr_caution_max) || i.market_breadth.le(p.breadth_caution_min)
            || widening.ge(p.widening_riskoff_pct) {
            return RegimeState::RiskOff;
        }
        if i.is_calendar_risk {
            return RegimeState::Caution;
        }
        if i.spy_atr_1m.gt(p.atr_normal_max) || i.market_breadth.lt(p.breadth_normal_min)
            || widening.ge(p.widening_caution_pct) {
            return RegimeState::Caution;
        }
        RegimeState::Normal
    }

    /// The regime the sensors give now.
    pub fn calculate_state(&self) -> (s: RegimeState)
        ensures
            s == regime_of(self.params(), self.inputs()),
    {
        Self::state_of(&self.params, &self.inputs)
    }

    /// The regime last computed.
    pub fn state(&self) -> (s: RegimeState)
        ensures
            s == self.current(),
    {
        self.current_state
    }
}

/// Degraded or halted data always means Risk-Off, and calendar risk alone
/// never leaves the regime at Normal.
pub proof fn law_regime_overrides(p: RegimeParams, i: RegimeInputs)
    ensures
        i.data_quality != DataQuality::Normal ==> regime_of(p, i) == RegimeState::RiskOff,
        i.is_calendar_risk ==> regime_of(p, i) != RegimeState::Normal,
{
}

/// With good data, each Risk-Off trigger gives Risk-Off whatever else holds,
/// calendar risk included: SPY ATR at or above the Risk-Off level, breadth at
/// or below its Risk-Off level, or (with a spread baseline) a spread widening
/// at or above its Risk-Off level. Short of these, calendar risk gives
/// Caution.
pub proof fn law_risk_off_triggers(p: RegimeParams, i: RegimeInputs)
    requires
        i.data_quality == DataQuality::Normal,
    ensures
        key_le(p.atr_caution_max, i.spy_atr_1m) ==> regime_of(p, i) == RegimeState::RiskOff,
        key_le(i.market_breadth, p.breadth_caution_min) ==> regime_of(p, i) == RegimeState::RiskOff,
        key_lt(OrdKey(KEY_ZERO), i.spy_spread_baseline) && key_le(p.widening_riskoff_pct, i.spread_widening)
            ==> regime_of(p, i) == RegimeState::RiskOff,
        regime_of(p, i) == RegimeState::RiskOff ==> key_le(p.atr_caution_max, i.spy_atr_1m) || key_le(
            i.market_breadth,
            p.breadth_caution_min,
        ) || (key_lt(OrdKey(KEY_ZERO), i.spy_spread_baseline) && key_le(p.widening_riskoff_pct, i.spread_widening))
            || (!key_lt(OrdKey(KEY_ZERO), i.spy_spread_baseline) && key_le(p.widening_riskoff_pct, OrdKey(KEY_ZERO))),
        i.is_calendar_risk && regime_of(p, i) != RegimeState::RiskOff ==> regime_of(p, i) == RegimeState::Caution,
{
}

/// With good data and no Risk-Off trigger, the regime is Caution exactly when
/// there is calendar risk, SPY ATR above its normal level, breadth below its
/// normal level, or (with a spread baseline) widening at or above the Caution
/// level; otherwise it is Normal.
pub proof fn law_caution_or_normal(p: RegimeParams, i: RegimeInputs)
    requires
        i.data_quality == DataQuality::Normal,
        !key_le(p.atr_caution_max, i.spy_atr_1m),
        !key_le(i.market_breadth, p.breadth_caution_min),
        key_lt(OrdKey(KEY_ZERO), i.spy_spread_baseline),
        !key_le(p.widening_riskoff_pct, i.spread_widening),
    ensures
        (regime_of(p, i) == RegimeState::Caution) == (i.is_calendar_risk || key_lt(p.atr_normal_max, i.spy_atr_1m)
            || key_lt(i.market_breadth, p.breadth_normal_min) || key_le(p.widening_caution_pct, i.spread_widening)),
        regime_of(p, i) != RegimeState::RiskOff,
{
}

} // verus!
