//! Daily context of a symbol: whether it is "in play" from relative volume,
//! news and sector momentum, and whether it is churning in a narrow range.
use vstd::prelude::*;
use crate::types::{
    key_le, key_lt, ContextState, DailyContext, OrdKey, SectorMomentum, SymbolId, VolumeProfile,
    KEY_ZERO,
};

verus! {

/// Context thresholds; multipliers and percentages are keys of doubles.
#[derive(Debug, Clone, Copy)]
pub struct ContextParams {
    pub volume_multiplier_2x: OrdKey,
    pub volume_multiplier_3x: OrdKey,
    /// Least absolute sector move, in percent, that qualifies.
    pub sector_momentum_min_pct: OrdKey,
    /// Range, as a fraction of the high, under which the symbol churns.
    pub churn_max_move_pct: OrdKey,
    pub churn_window_minutes: u64,
}

/// Keys of 2.0, 3.0 and 0.01.
pub const KEY_2_0: u64 = 0xC000_0000_0000_0000u64;
pub const KEY_3_0: u64 = 0xC008_0000_0000_0000u64;
pub const KEY_0_01: u64 = 0xBF84_7AE1_47AE_147Bu64;

impl Default for ContextParams {
    /// Volume 2x / 3x, sector move 2%, churn range 1% over 10 minutes.
    fn default() -> (p: Self)
        ensures
            p.volume_multiplier_2x == OrdKey(KEY_2_0),
            p.volume_multiplier_3x == OrdKey(KEY_3_0),
            p.sector_momentum_min_pct == OrdKey(KEY_2_0),
            p.churn_max_move_pct == OrdKey(KEY_0_01),
            p.churn_window_minutes == 10,
    {
        ContextParams {
            volume_multiplier_2x: OrdKey(KEY_2_0),
            volume_multiplier_3x: OrdKey(KEY_3_0),
            sector_momentum_min_pct: OrdKey(KEY_2_0),
            churn_max_move_pct: OrdKey(KEY_0_01),
            churn_window_minutes: 10,
        }
    }
}

/// The key of the absolute value of a double.
pub open spec fn key_abs(k: OrdKey) -> OrdKey {
    if k.0 < KEY_ZERO {
        OrdKey(!k.0)
    } else {
        k
    }
}

/// The key of the absolute value of a double.
pub fn abs_key(k: OrdKey) -> (r: OrdKey)
    ensures
        r == key_abs(k),
{
    if k.0 < KEY_ZERO {
        OrdKey(!k.0)
    } else {
        k
    }
}

/// The sector momentum qualifies: favourable and moving at least the minimum.
pub open spec fn sector_qualifies(m: Option<SectorMomentum>, min_pct: OrdKey) -> bool {
    m matches Some(s) && s.is_favorable && key_le(min_pct, key_abs(s.change_pct))
}

/// The context state of the given inputs; `volume_ratio` is the current
/// volume over the 20-day average.
pub open spec fn context_verdict(
    p: ContextParams,
    is_churning: bool,
    avg_20d_volume: u64,
    is_volume_surge: bool,
    volume_ratio: OrdKey,
    has_news: bool,
    sector: Option<SectorMomentum>,
) -> ContextState {
    if is_churning {
        ContextState::NoPlay
    } else if avg_20d_volume == 0 {
        ContextState::Undetermined
    } else if is_volume_surge && key_le(p.volume_multiplier_3x, volume_ratio) {
        ContextState::Play
    } else if key_lt(volume_ratio, p.volume_multiplier_2x) {
        ContextState::NoPlay
    } else if has_news || sector_qualifies(sector, p.sector_momentum_min_pct) {
        ContextState::Play
    } else {
        ContextState::Undetermined
    }
}

/// Context inputs of one symbol.
pub struct ContextEngine {
    params: ContextParams,
    symbol_id: SymbolId,
    current_volume: u64,
    avg_20d_volume: u64,
    has_news: bool,
    sector_momentum: Option<SectorMomentum>,
    is_volume_surge: bool,
    volume_ratio: OrdKey,
    pub price_high_window: OrdKey,
    pub price_low_window: OrdKey,
    pub is_churning: bool,
}

impl ContextEngine {
    pub closed spec fn params(&self) -> ContextParams {
        self.params
    }

    pub closed spec fn symbol(&self) -> SymbolId {
        self.symbol_id
    }

    pub closed spec fn volume(&self) -> VolumeProfile {
        VolumeProfile {
            current_volume: self.current_volume,
            avg_20d_volume: self.avg_20d_volume,
            is_surge: self.is_volume_surge,
        }
    }

    pub closed spec fn ratio(&self) -> OrdKey {
        self.volume_ratio
    }

    pub closed spec fn news(&self) -> bool {
        self.has_news
    }

    pub closed spec fn sector(&self) -> Option<SectorMomentum> {
        self.sector_momentum
    }

    pub closed spec fn churning(&self) -> bool {
        self.is_churning
    }

    pub closed spec fn window(&self) -> (OrdKey, OrdKey) {
        (self.price_high_window, self.price_low_window)
    }

    /// The state `compute_context` reports.
    pub open spec fn state_spec(&self) -> ContextState {
        context_verdict(
            self.params(),
            self.churning(),
            self.volume().avg_20d_volume,
            self.volume().is_surge,
            self.ratio(),
            self.news(),
            self.sector(),
        )
    }

    /// No volume, news, sector or price window yet.
    pub fn new(symbol_id: SymbolId, params: ContextParams) -> (e: Self)
        ensures
            e.params() == params,
            e.symbol() == symbol_id,
            e.volume() == (VolumeProfile { current_volume: 0, avg_20d_volume: 0, is_surge: false }),
            e.ratio() == OrdKey(KEY_ZERO),
            !e.news(),
            e.sector() is None,
            !e.churning(),
            e.window() == (OrdKey(KEY_ZERO), OrdKey(KEY_ZERO)),
    {
        ContextEngine {
            params,
            symbol_id,
            current_volume: 0,
            avg_20d_volume: 0,
            has_news: false,
            sector_momentum: None,
            is_volume_surge: false,
            volume_ratio: OrdKey::zero(),
            price_high_window: OrdKey::zero(),
            price_low_window: OrdKey::zero(),
            is_churning: false,
        }
    }

    /// Takes the day's volume, its 20-day average, the surge flag and the
    /// caller's ratio of the two.
    pub fn update_volume(&mut self, current: u64, avg_20d: u64, is_surge: bool, ratio: OrdKey)
        ensures
            final(self).volume() == (VolumeProfile { current_volume: current, avg_20d_volume: avg_20d, is_surge }),
            final(self).ratio() == ratio,
            final(self).params() == old(self).params(),
            final(self).symbol() == old(self).symbol(),
            final(self).news() == old(self).news(),
            final(self).sector() == old(self).sector(),
            final(self).churning() == old(self).churning(),
            final(self).window() == old(self).window(),
    {
        self.current_volume = current;
        self.avg_20d_volume = avg_20d;
        self.is_volume_surge = is_surge;
        self.volume_ratio = ratio;
    }

    pub fn update_news(&mut self, has_news: bool)
        ensures
            final(self).news() == has_news,
            final(self).volume() == old(self).volume(),
            final(self).ratio() == old(self).ratio(),
            final(self).params() == old(self).params(),
            final(self).symbol() == old(self).symbol(),
            final(self).sector() == old(self).sector(),
            final(self).churning() == old(self).churning(),
            final(self).window() == old(self).window(),
    {
        self.has_news = has_news;
    }

    pub fn update_sector_momentum(&mut self, momentum: SectorMomentum)
        ensures
            final(self).sector() == Some(momentum),
            final(self).news() == old(self).news(),
            final(self).volume() == old(self).volume(),
            final(self).ratio() == old(self).ratio(),
            final(self).params() == old(self).params(),
            final(self).symbol() == old(self).symbol(),
            final(self).churning() == old(self).churning(),
            final(self).window() == old(self).window(),
    {
        self.sector_momentum = Some(momentum);
    }

    /// Takes the window's high and low price and the caller's
    /// `(high - low) / high`; with a positive high, the symbol churns when
    /// that range is under the churn limit.
    pub fn update_price_window(&mut self, window_high: OrdKey, window_low: OrdKey, range_pct: OrdKey)
        ensures
            final(self).window() == (window_high, window_low),
            final(self).churning() == if key_lt(OrdKey(KEY_ZERO), window_high) {
                key_lt(range_pct, old(self).params().churn_max_move_pct)
            } else {
                old(self).churning()
            },
            final(self).news() == old(self).news(),
            final(self).volume() == old(self).volume(),
            final(self).ratio() == old(self).ratio(),
            final(self).params() == old(self).params(),
            final(self).symbol() == old(self).symbol(),
            final(self).sector() == old(self).sector(),
    {
        self.price_high_window = window_high;
        self.price_low_window = window_low;
        if window_high.gt(OrdKey::zero()) {
            self.is_churning = range_pct.lt(self.params.churn_max_move_pct);
        }
    }

    fn evaluate_state(&self) -> (s: ContextState)
        ensures
            s == self.state_spec(),
    {
        if self.is_churning {
            return ContextState::NoPlay;
        }
        if self.avg_20d_volume == 0 {
            return ContextState::Undetermined;
        }
        if self.is_volume_surge && self.volume_ratio.ge(self.params.volume_multiplier_3x) {
            return ContextState::Play;
        }
        if self.volume_ratio.lt(self.params.volume_multiplier_2x) {
            return ContextState::NoPlay;
        }
        let has_sector = match &self.sector_momentum {
            Some(s) => s.is_favorable && abs_key(s.change_pct).ge(self.params.sector_momentum_min_pct),
            None => false,
        };
        if self.has_news || has_sector {
            return ContextState::Play;
        }
        ContextState::Undetermined
    }

    /// The symbol's daily context.
    pub fn compute_context(&self) -> (c: DailyContext)
        ensures
            c.symbol_id == self.symbol(),
            c.state == self.state_spec(),
            c.volume_profile == self.volume(),
            c.has_news == self.news(),
            c.sector_momentum == self.sector(),
    {
        let state = self.evaluate_state();
        let sector_momentum = match &self.sector_momentum {
            Some(m) => Some(m.duplicate()),
            None => None,
        };
        DailyContext {
            symbol_id: self.symbol_id,
            state,
            volume_profile: VolumeProfile {
                current_volume: self.current_volume,
                avg_20d_volume: self.avg_20d_volume,
                is_surge: self.is_volume_surge,
            },
            has_news: self.has_news,
            sector_momentum,
        }
    }
}

/// A churning symbol is never in play, and one under twice its average
/// volume is in play only on a volume surge.
pub proof fn law_context_gates(
    p: ContextParams,
    is_churning: bool,
    avg: u64,
    surge: bool,
    ratio: OrdKey,
    news: bool,
    sector: Option<SectorMomentum>,
)
    ensures
        is_churning ==> context_verdict(p, is_churning, avg, surge, ratio, news, sector) == ContextState::NoPlay,
        context_verdict(p, is_churning, avg, surge, ratio, news, sector) == ContextState::Play ==> !is_churning
            && avg > 0,
        context_verdict(p, is_churning, avg, surge, ratio, news, sector) == ContextState::Play && key_lt(
            ratio,
            p.volume_multiplier_2x,
        ) ==> surge,
{
}

/// A symbol that is not churning, has an average volume, and trades at two
/// to three times it (or more, without a surge) is in play exactly when it has
/// news or its sector momentum is favourable and moves at least the minimum;
/// an unfavourable or too small sector move never qualifies it.
pub proof fn law_mid_volume_needs_qualifier(
    p: ContextParams,
    avg: u64,
    surge: bool,
    ratio: OrdKey,
    news: bool,
    sector: Option<SectorMomentum>,
)
    requires
        avg > 0,
        !(surge && key_le(p.volume_multiplier_3x, ratio)),
        !key_lt(ratio, p.volume_multiplier_2x),
    ensures
        (context_verdict(p, false, avg, surge, ratio, news, sector) == ContextState::Play) == (news || (
        sector is Some && sector->0.is_favorable && key_le(p.sector_momentum_min_pct, key_abs(sector->0.change_pct)))),
        context_verdict(p, false, avg, surge, ratio, news, sector) != ContextState::NoPlay,
        !news && (sector is None || !sector->0.is_favorable) ==> context_verdict(p, false, avg, surge, ratio, news, sector)
            == ContextState::Undetermined,
{
}

/// Outside churning: no average volume leaves the context undetermined; a
/// volume surge at three times the average or more is in play on its own;
/// below twice the average without such a surge is no play.
pub proof fn law_volume_decides(
    p: ContextParams,
    avg: u64,
    surge: bool,
    ratio: OrdKey,
    news: bool,
    sector: Option<SectorMomentum>,
)
    ensures
        avg == 0 ==> context_verdict(p, false, avg, surge, ratio, news, sector) == ContextState::Undetermined,
        avg > 0 && surge && key_le(p.volume_multiplier_3x, ratio) ==> context_verdict(p, false, avg, surge, ratio, news, sector)
            == ContextState::Play,
        avg > 0 && !(surge && key_le(p.volume_multiplier_3x, ratio)) && key_lt(ratio, p.volume_multiplier_2x)
            ==> context_verdict(p, false, avg, surge, ratio, news, sector) == ContextState::NoPlay,
{
}

} // verus!
