use vstd::prelude::*;
use crate::types::{
    key_lt, ColdStartState, DailyContext, MtfAnalysis, OrdKey, RegimeState, SubscriptionStatus, SymbolId,
    Tier, KEY_HALF, KEY_ONE, KEY_ZERO,
};
use crate::symmap::{
    SymMap, counted_down, distinct_syms, filter_entries, filter_map_values, find_sym,
    lemma_filter_entries, lemma_filter_split, lemma_sym_concat, lemma_sym_dom, lemma_sym_len, lemma_sym_push,
    lemma_sym_remove, lemma_sym_update, lemma_sym_val, sym_map,
};
use crate::metrics::MetricsCollector;

verus! {

/// Ticks a symbol needs before it may be promoted.
pub const TICK_READY_THRESHOLD: u64 = 50;
pub const MAX_TIER_A: usize = 20;
pub const MAX_TIER_B: usize = 100;
pub const MAX_TIER_C: usize = 200;
/// Concurrent market-data lines that tiers A and B may hold together.
pub const MAX_TOTAL_SUBSCRIPTIONS: usize = 95;
/// Updates spent warming up before full activity.
pub const WARM_BUFFER_TICKS: u64 = 100;

/// Per-symbol watchlist state.
#[derive(Debug)]
pub struct TierData {
    pub tier: Tier,
    pub tick_count: u64,
    pub subscription_status: SubscriptionStatus,
    pub last_activity: u64,
    pub cold_start_state: ColdStartState,
    pub ticks_in_warm_state: u64,
    pub daily_context: Option<DailyContext>,
    pub mtf_analysis: Option<MtfAnalysis>,
    pub inactive_cycles: u32,
    pub quality_score: OrdKey,
    pub volume: u64,
}

/// The cold-start controller after one update.
pub open spec fn cold_start_step(d: TierData, is_surge: bool) -> TierData {
    if is_surge {
        TierData { cold_start_state: ColdStartState::FullActive, ..d }
    } else {
        match d.cold_start_state {
            ColdStartState::ColdStart => TierData {
                cold_start_state: ColdStartState::WarmActive,
                ticks_in_warm_state: 0,
                ..d
            },
            ColdStartState::WarmActive => {
                let t = (d.ticks_in_warm_state + 1) as u64;
                TierData {
                    ticks_in_warm_state: t,
                    cold_start_state: if t >= WARM_BUFFER_TICKS {
                        ColdStartState::FullActive
                    } else {
                        ColdStartState::WarmActive
                    },
                    ..d
                }
            },
            ColdStartState::FullActive => d,
        }
    }
}

impl TierData {
    pub fn new(tier: Tier) -> (r: Self)
        ensures
            r == fresh_data(tier),
    {
        TierData {
            tier,
            tick_count: 0,
            subscription_status: SubscriptionStatus::Unsubscribed,
            last_activity: 0,
            cold_start_state: ColdStartState::ColdStart,
            ticks_in_warm_state: 0,
            daily_context: None,
            mtf_analysis: None,
            inactive_cycles: 0,
            quality_score: OrdKey::zero(),
            volume: 0,
        }
    }

    /// A field-by-field copy.
    pub fn duplicate(&self) -> (r: TierData)
        ensures
            r == *self,
    {
        let daily_context = match &self.daily_context {
            Some(c) => Some(c.duplicate()),
            None => None,
        };
        TierData {
            tier: self.tier,
            tick_count: self.tick_count,
            subscription_status: self.subscription_status,
            last_activity: self.last_activity,
            cold_start_state: self.cold_start_state,
            ticks_in_warm_state: self.ticks_in_warm_state,
            daily_context,
            mtf_analysis: self.mtf_analysis,
            inactive_cycles: self.inactive_cycles,
            quality_score: self.quality_score,
            volume: self.volume,
        }
    }

    /// Cold start → warm on the first update, warm → full after
    /// `WARM_BUFFER_TICKS` further updates; a volume surge goes straight to full.
    pub fn update_cold_start(&mut self, is_surge: bool)
        requires
            !is_surge && old(self).cold_start_state == ColdStartState::WarmActive ==>
                old(self).ticks_in_warm_state < u64::MAX,
        ensures
            *final(self) == cold_start_step(*old(self), is_surge),
    {
        if is_surge {
            self.cold_start_state = ColdStartState::FullActive;
            return;
        }
        match self.cold_start_state {
            ColdStartState::ColdStart => {
                self.cold_start_state = ColdStartState::WarmActive;
                self.ticks_in_warm_state = 0;
            }
            ColdStartState::WarmActive => {
                self.ticks_in_warm_state = self.ticks_in_warm_state + 1;
                if self.ticks_in_warm_state >= WARM_BUFFER_TICKS {
                    self.cold_start_state = ColdStartState::FullActive;
                }
            }
            ColdStartState::FullActive => {}
        }
    }

    /// Weight of acceleration in scoring: 0 cold, 0.5 warm, 1 full.
    pub fn acceleration_weight(&self) -> (r: OrdKey)
        ensures
            r.0 == match self.cold_start_state {
                ColdStartState::ColdStart => KEY_ZERO,
                ColdStartState::WarmActive => KEY_HALF,
                ColdStartState::FullActive => KEY_ONE,
            },
    {
        match self.cold_start_state {
            ColdStartState::ColdStart => OrdKey(KEY_ZERO),
            ColdStartState::WarmActive => OrdKey(KEY_HALF),
            ColdStartState::FullActive => OrdKey(KEY_ONE),
        }
    }
}

/// Watchlist state of a symbol that has just entered `tier`.
pub open spec fn fresh_data(tier: Tier) -> TierData {
    TierData {
        tier,
        tick_count: 0,
        subscription_status: SubscriptionStatus::Unsubscribed,
        last_activity: 0,
        cold_start_state: ColdStartState::ColdStart,
        ticks_in_warm_state: 0,
        daily_context: None,
        mtf_analysis: None,
        inactive_cycles: 0,
        quality_score: OrdKey(KEY_ZERO),
        volume: 0,
    }
}

/// `m` with `f` applied to the entry for `k`, if there is one.
pub open spec fn upd(m: Map<SymbolId, TierData>, k: SymbolId, f: spec_fn(TierData) -> TierData) -> Map<SymbolId, TierData> {
    if m.contains_key(k) {
        m.insert(k, f(m[k]))
    } else {
        m
    }
}

pub open spec fn tick_step(d: TierData) -> TierData {
    TierData { tick_count: (d.tick_count + 1) as u64, inactive_cycles: 0, ..d }
}

pub open spec fn context_step(d: TierData, ctx: DailyContext, mtf: MtfAnalysis) -> TierData {
    TierData { daily_context: Some(ctx), mtf_analysis: Some(mtf), ..d }
}

pub open spec fn demoted_to_b(d: TierData) -> TierData {
    TierData { tier: Tier::B, ..d }
}

pub open spec fn demoted_to_c(d: TierData) -> TierData {
    TierData { tier: Tier::C, subscription_status: SubscriptionStatus::Unsubscribed, ..d }
}

pub open spec fn promoted_to_b(d: TierData) -> TierData {
    TierData { tier: Tier::B, subscription_status: SubscriptionStatus::Pending, ..d }
}

pub open spec fn promoted_to_a(d: TierData) -> TierData {
    TierData { tier: Tier::A, ..d }
}

pub open spec fn promoted_count(m: MetricsCollector) -> MetricsCollector {
    MetricsCollector { symbols_promoted: (m.symbols_promoted + 1) as u64, ..m }
}

pub open spec fn evicted_count(m: MetricsCollector, n: nat) -> MetricsCollector {
    MetricsCollector { symbols_evicted: (m.symbols_evicted + n) as u64, ..m }
}

/// `s[i]` is the least recently active entry, and the first such entry.
pub open spec fn is_oldest(s: Seq<(SymbolId, TierData)>, i: int) -> bool {
    &&& 0 <= i < s.len()
    &&& forall|j: int| 0 <= j < s.len() ==> s[i].1.last_activity <= s[j].1.last_activity
    &&& forall|j: int| 0 <= j < i ==> s[j].1.last_activity > s[i].1.last_activity
}

/// The symbol evicted from a full tier C.
pub open spec fn oldest_symbol(s: Seq<(SymbolId, TierData)>) -> SymbolId {
    s[choose|i: int| is_oldest(s, i)].0
}

/// What `promote` answers.
pub open spec fn promote_result(w: Watchlist, k: SymbolId) -> Result<(), &'static str> {
    match w.spec_tier(k) {
        None => Err("Symbol not in watchlist"),
        Some(Tier::C) => if w.b().len() >= MAX_TIER_B {
            Err("Tier B full")
        } else if w.a().len() + w.b().len() >= MAX_TOTAL_SUBSCRIPTIONS {
            Err("Max subscriptions reached")
        } else if w.c()[k].tick_count < TICK_READY_THRESHOLD {
            Err("Not TickReady")
        } else {
            Ok(())
        },
        Some(Tier::B) => if w.a().len() >= MAX_TIER_A {
            Err("Tier A full")
        } else if w.b()[k].tick_count < TICK_READY_THRESHOLD {
            Err("Not TickReady for Tier A")
        } else {
            Ok(())
        },
        Some(Tier::A) => Err("Already in Tier A"),
    }
}

/// What `add_candidate` answers.
pub open spec fn add_result(w: Watchlist, k: SymbolId) -> Result<(), &'static str> {
    if w.recently_evicted@.contains_key(k) {
        Err("Recently evicted, cannot re-promote yet")
    } else if w.spec_tier(k) is Some {
        Err("Already in watchlist")
    } else {
        Ok(())
    }
}

/// One more lifecycle cycle without activity.
pub open spec fn aged(d: TierData) -> TierData {
    TierData { inactive_cycles: (d.inactive_cycles + 1) as u32, ..d }
}

/// A tier-A or tier-B symbol that is due for demotion.
pub open spec fn demotable(d: TierData, demotion_cycles: u32, min_quality: OrdKey, min_volume: u64) -> bool {
    key_lt(d.quality_score, min_quality) || d.volume < min_volume || d.inactive_cycles >= demotion_cycles
}

/// Keeps its tier through a lifecycle cycle.
pub open spec fn stays(dc: u32, mq: OrdKey, mv: u64) -> spec_fn(TierData) -> bool {
    |d: TierData| !demotable(aged(d), dc, mq, mv)
}

/// Is demoted in a lifecycle cycle.
pub open spec fn leaves(dc: u32, mq: OrdKey, mv: u64) -> spec_fn(TierData) -> bool {
    |d: TierData| demotable(aged(d), dc, mq, mv)
}

/// Stays in tier C through a lifecycle cycle.
pub open spec fn stays_cold(ec: u32) -> spec_fn(TierData) -> bool {
    |d: TierData| aged(d).inactive_cycles < ec
}

/// Is evicted from tier C in a lifecycle cycle.
pub open spec fn evicted_now(ec: u32) -> spec_fn(TierData) -> bool {
    |d: TierData| aged(d).inactive_cycles >= ec
}

pub open spec fn aged_fn() -> spec_fn(TierData) -> TierData {
    |d: TierData| aged(d)
}

/// Demoted into tier `t` (B or C).
pub open spec fn lowered(d: TierData, t: Tier) -> TierData {
    if t == Tier::B {
        demoted_to_b(d)
    } else {
        demoted_to_c(d)
    }
}

pub open spec fn lowered_fn(t: Tier) -> spec_fn(TierData) -> TierData {
    |d: TierData| lowered(aged(d), t)
}

pub open spec fn const_fn(c: u32) -> spec_fn(TierData) -> u32 {
    |d: TierData| c
}

/// The counters after a lifecycle cycle.
pub open spec fn lifecycle_counts(m: MetricsCollector, demoted: nat, evicted: nat, cold: nat, current: nat) -> MetricsCollector {
    MetricsCollector {
        symbols_demoted: (m.symbols_demoted + demoted) as u64,
        symbols_evicted: (m.symbols_evicted + evicted) as u64,
        cold_symbol_count: cold as u64,
        current_count: current as u64,
        budget: (MAX_TIER_A + MAX_TIER_B + MAX_TIER_C) as u64,
        ..m
    }
}

pub open spec fn all_below_max(s: Seq<(SymbolId, TierData)>) -> bool {
    forall|i: int| 0 <= i < s.len() ==> s[i].1.inactive_cycles < u32::MAX
}

fn split_tier(v: &Vec<(SymbolId, TierData)>, dc: u32, mq: OrdKey, mv: u64, down: Tier) -> (r: (Vec<(SymbolId, TierData)>, Vec<(SymbolId, TierData)>))
    requires
        all_below_max(v@),
    ensures
        r.0@ == filter_entries(v@, stays(dc, mq, mv), aged_fn()),
        r.1@ == filter_entries(v@, leaves(dc, mq, mv), lowered_fn(down)),
{
    let mut kept: Vec<(SymbolId, TierData)> = Vec::new();
    let mut moved: Vec<(SymbolId, TierData)> = Vec::new();
    let n = v.len();
    let mut i: usize = 0;
    while i < n
        invariant
            n == v@.len(),
            i <= n,
            all_below_max(v@),
            kept@ == filter_entries(v@.take(i as int), stays(dc, mq, mv), aged_fn()),
            moved@ == filter_entries(v@.take(i as int), leaves(dc, mq, mv), lowered_fn(down)),
        decreases n - i,
    {
        let k = v[i].0;
        let mut d = v[i].1.duplicate();
        d.inactive_cycles = d.inactive_cycles + 1;
        let ghost t = v@.take(i + 1);
        assert(t.drop_last() =~= v@.take(i as int));
        assert(t.last() == v@[i as int]);
        assert(d == aged(v@[i as int].1));
        if d.quality_score.lt(mq) || d.volume < mv || d.inactive_cycles >= dc {
            if down == Tier::B {
                d.tier = Tier::B;
            } else {
                d.tier = Tier::C;
                d.subscription_status = SubscriptionStatus::Unsubscribed;
            }
            moved.push((k, d));
        } else {
            kept.push((k, d));
        }
        i = i + 1;
    }
    assert(v@.take(n as int) =~= v@);
    (kept, moved)
}

fn sweep_cold(v: &Vec<(SymbolId, TierData)>, ec: u32) -> (r: (Vec<(SymbolId, TierData)>, Vec<(SymbolId, u32)>))
    requires
        all_below_max(v@),
    ensures
        r.0@ == filter_entries(v@, stays_cold(ec), aged_fn()),
        r.1@ == filter_entries(v@, evicted_now(ec), const_fn(ec)),
{
    let mut kept: Vec<(SymbolId, TierData)> = Vec::new();
    let mut gone: Vec<(SymbolId, u32)> = Vec::new();
    let n = v.len();
    let mut i: usize = 0;
    while i < n
        invariant
            n == v@.len(),
            i <= n,
            all_below_max(v@),
            kept@ == filter_entries(v@.take(i as int), stays_cold(ec), aged_fn()),
            gone@ == filter_entries(v@.take(i as int), evicted_now(ec), const_fn(ec)),
        decreases n - i,
    {
        let k = v[i].0;
        let mut d = v[i].1.duplicate();
        d.inactive_cycles = d.inactive_cycles + 1;
        let ghost t = v@.take(i + 1);
        assert(t.drop_last() =~= v@.take(i as int));
        assert(t.last() == v@[i as int]);
        assert(d == aged(v@[i as int].1));
        if d.inactive_cycles >= ec {
            gone.push((k, ec));
        } else {
            kept.push((k, d));
        }
        i = i + 1;
    }
    assert(v@.take(n as int) =~= v@);
    (kept, gone)
}


/// What the slow loop publishes for the fast loop.
#[derive(Debug)]
pub struct WatchlistSnapshot {
    pub tier_a_count: usize,
    pub tier_b_count: usize,
    pub tier_c_count: usize,
    pub total_subscriptions: usize,
    pub regime: RegimeState,
    pub contexts: SymMap<DailyContext>,
    pub mtf_results: SymMap<MtfAnalysis>,
}

impl Default for WatchlistSnapshot {
    /// No symbol, Normal regime.
    fn default() -> (s: Self)
        ensures
            s.tier_a_count == 0,
            s.tier_b_count == 0,
            s.tier_c_count == 0,
            s.total_subscriptions == 0,
            s.regime == RegimeState::Normal,
            s.contexts.wf(),
            s.contexts@ == Map::<SymbolId, DailyContext>::empty(),
            s.mtf_results.wf(),
            s.mtf_results@ == Map::<SymbolId, MtfAnalysis>::empty(),
    {
        WatchlistSnapshot {
            tier_a_count: 0,
            tier_b_count: 0,
            tier_c_count: 0,
            total_subscriptions: 0,
            regime: RegimeState::Normal,
            contexts: SymMap::new(),
            mtf_results: SymMap::new(),
        }
    }
}

/// The daily contexts held in a tier.
pub open spec fn contexts_in(m: Map<SymbolId, TierData>) -> Map<SymbolId, DailyContext> {
    Map::new(|k: SymbolId| m.contains_key(k) && m[k].daily_context is Some, |k: SymbolId| m[k].daily_context->0)
}

/// The timeframe analyses held in a tier.
pub open spec fn analyses_in(m: Map<SymbolId, TierData>) -> Map<SymbolId, MtfAnalysis> {
    Map::new(|k: SymbolId| m.contains_key(k) && m[k].mtf_analysis is Some, |k: SymbolId| m[k].mtf_analysis->0)
}

/// Adds the contexts and analyses of one tier's entries to the snapshot maps.
fn collect_tier(
    v: &Vec<(SymbolId, TierData)>,
    contexts: &mut SymMap<DailyContext>,
    analyses: &mut SymMap<MtfAnalysis>,
)
    requires
        distinct_syms(v@),
        old(contexts).wf(),
        old(analyses).wf(),
    ensures
        final(contexts).wf(),
        final(analyses).wf(),
        final(contexts)@ == old(contexts)@.union_prefer_right(contexts_in(sym_map(v@))),
        final(analyses)@ == old(analyses)@.union_prefer_right(analyses_in(sym_map(v@))),
{
    let n = v.len();
    let mut i: usize = 0;
    while i < n
        invariant
            n == v@.len(),
            i <= n,
            distinct_syms(v@),
            contexts.wf(),
            analyses.wf(),
            contexts@ == old(contexts)@.union_prefer_right(contexts_in(sym_map(v@.take(i as int)))),
            analyses@ == old(analyses)@.union_prefer_right(analyses_in(sym_map(v@.take(i as int)))),
        decreases n - i,
    {
        let k = v[i].0;
        let ghost t = v@.take(i as int);
        let ghost t1 = v@.take(i + 1);
        proof {
            assert(t1.drop_last() =~= t);
            assert(t1.last() == v@[i as int]);
            lemma_sym_dom(t, k);
            if sym_map(t).contains_key(k) {
                let j = choose|j: int| 0 <= j < t.len() && t[j].0 == k;
                assert(v@[j].0 == v@[i as int].0);
            }
        }
        match &v[i].1.daily_context {
            Some(c) => {
                contexts.insert(k, c.duplicate());
            },
            None => {},
        }
        match &v[i].1.mtf_analysis {
            Some(m) => {
                analyses.insert(k, *m);
            },
            None => {},
        }
        proof {
            assert(contexts@ =~= old(contexts)@.union_prefer_right(contexts_in(sym_map(t1))));
            assert(analyses@ =~= old(analyses)@.union_prefer_right(analyses_in(sym_map(t1))));
        }
        i = i + 1;
    }
    proof {
        assert(v@.take(n as int) =~= v@);
    }
}

/// Tiered watchlist: tier A (fast loop), B (subscribed), C (candidates).
pub struct Watchlist {
    pub tier_a: SymMap<TierData>,
    pub tier_b: SymMap<TierData>,
    pub tier_c: SymMap<TierData>,
    pub current_regime: RegimeState,
    /// Symbol -> remaining cooldown cycles before it may return.
    pub recently_evicted: SymMap<u32>,
}

impl Watchlist {
    pub open spec fn a(&self) -> Map<SymbolId, TierData> {
        sym_map(self.tier_a.entries@)
    }

    pub open spec fn b(&self) -> Map<SymbolId, TierData> {
        sym_map(self.tier_b.entries@)
    }

    pub open spec fn c(&self) -> Map<SymbolId, TierData> {
        sym_map(self.tier_c.entries@)
    }

    /// The tier holding `k`.
    pub open spec fn spec_tier(&self, k: SymbolId) -> Option<Tier> {
        if self.a().contains_key(k) {
            Some(Tier::A)
        } else if self.b().contains_key(k) {
            Some(Tier::B)
        } else if self.c().contains_key(k) {
            Some(Tier::C)
        } else {
            None
        }
    }

    /// Tiers are disjoint, each symbol's recorded tier is the tier holding it.
    pub open spec fn wf(&self) -> bool {
        &&& distinct_syms(self.tier_a.entries@)
        &&& distinct_syms(self.tier_b.entries@)
        &&& distinct_syms(self.tier_c.entries@)
        &&& forall|k: SymbolId| self.a().contains_key(k) ==> !self.b().contains_key(k) && !self.c().contains_key(k)
        &&& forall|k: SymbolId| self.b().contains_key(k) ==> !self.c().contains_key(k)
        &&& forall|k: SymbolId| self.a().contains_key(k) ==> self.a()[k].tier == Tier::A
        &&& forall|k: SymbolId| self.b().contains_key(k) ==> self.b()[k].tier == Tier::B
        &&& forall|k: SymbolId| self.c().contains_key(k) ==> self.c()[k].tier == Tier::C
        &&& self.recently_evicted.wf()
    }

    pub fn new() -> (r: Self)
        ensures
            r.wf(),
            r.a() == Map::<SymbolId, TierData>::empty(),
            r.b() == Map::<SymbolId, TierData>::empty(),
            r.c() == Map::<SymbolId, TierData>::empty(),
            r.current_regime == RegimeState::Normal,
            r.recently_evicted@ == Map::<SymbolId, u32>::empty(),
    {
        Watchlist {
            tier_a: SymMap { entries: Vec::new() },
            tier_b: SymMap { entries: Vec::new() },
            tier_c: SymMap { entries: Vec::new() },
            current_regime: RegimeState::Normal,
            recently_evicted: SymMap::new(),
        }
    }

    pub fn update_regime(&mut self, regime: RegimeState)
        ensures
            final(self).current_regime == regime,
            final(self).tier_a == old(self).tier_a,
            final(self).tier_b == old(self).tier_b,
            final(self).tier_c == old(self).tier_c,
            final(self).recently_evicted == old(self).recently_evicted,
    {
        self.current_regime = regime;
    }

    /// The tier holding `symbol_id`, if any.
    pub fn get_tier(&self, symbol_id: SymbolId) -> (r: Option<Tier>)
        ensures
            r == self.spec_tier(symbol_id),
    {
        proof {
            lemma_sym_dom(self.tier_a.entries@, symbol_id);
            lemma_sym_dom(self.tier_b.entries@, symbol_id);
            lemma_sym_dom(self.tier_c.entries@, symbol_id);
        }
        if find_sym(&self.tier_a.entries, symbol_id).is_some() {
            Some(Tier::A)
        } else if find_sym(&self.tier_b.entries, symbol_id).is_some() {
            Some(Tier::B)
        } else if find_sym(&self.tier_c.entries, symbol_id).is_some() {
            Some(Tier::C)
        } else {
            None
        }
    }

    /// The state of `symbol_id`, looked up in tiers A, B, C in turn.
    pub fn get_data(&self, symbol_id: SymbolId) -> (r: Option<&TierData>)
        requires
            self.wf(),
        ensures
            match self.spec_tier(symbol_id) {
                Some(Tier::A) => r == Some(&self.a()[symbol_id]),
                Some(Tier::B) => r == Some(&self.b()[symbol_id]),
                Some(Tier::C) => r == Some(&self.c()[symbol_id]),
                None => r is None,
            },
    {
        proof {
            lemma_sym_dom(self.tier_a.entries@, symbol_id);
            lemma_sym_dom(self.tier_b.entries@, symbol_id);
            lemma_sym_dom(self.tier_c.entries@, symbol_id);
        }
        if let Some(i) = find_sym(&self.tier_a.entries, symbol_id) {
            proof { lemma_sym_val(self.tier_a.entries@, i as int); }
            return Some(&self.tier_a.entries[i].1);
        }
        if let Some(i) = find_sym(&self.tier_b.entries, symbol_id) {
            proof { lemma_sym_val(self.tier_b.entries@, i as int); }
            return Some(&self.tier_b.entries[i].1);
        }
        if let Some(i) = find_sym(&self.tier_c.entries, symbol_id) {
            proof { lemma_sym_val(self.tier_c.entries@, i as int); }
            return Some(&self.tier_c.entries[i].1);
        }
        None
    }


    /// The state of `symbol_id` for in-place change, looked up in tiers A, B, C in turn.
    pub fn get_data_mut(&mut self, symbol_id: SymbolId) -> (r: Option<&mut TierData>)
        requires
            old(self).wf(),
        ensures
            old(self).spec_tier(symbol_id) is None ==> r is None && *final(self) == *old(self),
            old(self).spec_tier(symbol_id) == Some(Tier::A) ==> (r matches Some(d) && *d == old(self).a()[symbol_id]
                && final(self).a() == old(self).a().insert(symbol_id, *final(d))
                && final(self).tier_b == old(self).tier_b && final(self).tier_c == old(self).tier_c),
            old(self).spec_tier(symbol_id) == Some(Tier::B) ==> (r matches Some(d) && *d == old(self).b()[symbol_id]
                && final(self).b() == old(self).b().insert(symbol_id, *final(d))
                && final(self).tier_a == old(self).tier_a && final(self).tier_c == old(self).tier_c),
            old(self).spec_tier(symbol_id) == Some(Tier::C) ==> (r matches Some(d) && *d == old(self).c()[symbol_id]
                && final(self).c() == old(self).c().insert(symbol_id, *final(d))
                && final(self).tier_a == old(self).tier_a && final(self).tier_b == old(self).tier_b),
            final(self).current_regime == old(self).current_regime,
            final(self).recently_evicted == old(self).recently_evicted,
    {
        proof {
            lemma_sym_dom(self.tier_a.entries@, symbol_id);
            lemma_sym_dom(self.tier_b.entries@, symbol_id);
            lemma_sym_dom(self.tier_c.entries@, symbol_id);
        }
        if let Some(i) = find_sym(&self.tier_a.entries, symbol_id) {
            let ghost before = self.tier_a.entries@;
            proof { lemma_sym_val(before, i as int); }
            let e = &mut self.tier_a.entries[i];
            let d = &mut e.1;
            proof { lemma_sym_update(before, i as int, *final(d)); }
            return Some(d);
        }
        if let Some(i) = find_sym(&self.tier_b.entries, symbol_id) {
            let ghost before = self.tier_b.entries@;
            proof { lemma_sym_val(before, i as int); }
            let e = &mut self.tier_b.entries[i];
            let d = &mut e.1;
            proof { lemma_sym_update(before, i as int, *final(d)); }
            return Some(d);
        }
        if let Some(i) = find_sym(&self.tier_c.entries, symbol_id) {
            let ghost before = self.tier_c.entries@;
            proof { lemma_sym_val(before, i as int); }
            let e = &mut self.tier_c.entries[i];
            let d = &mut e.1;
            proof { lemma_sym_update(before, i as int, *final(d)); }
            return Some(d);
        }
        None
    }

    fn locate(&self, k: SymbolId) -> (r: Option<(Tier, usize)>)
        requires
            self.wf(),
        ensures
            match r {
                Some((Tier::A, i)) => self.spec_tier(k) == Some(Tier::A) && i < self.tier_a.entries@.len() && self.tier_a.entries@[i as int].0 == k,
                Some((Tier::B, i)) => self.spec_tier(k) == Some(Tier::B) && i < self.tier_b.entries@.len() && self.tier_b.entries@[i as int].0 == k,
                Some((Tier::C, i)) => self.spec_tier(k) == Some(Tier::C) && i < self.tier_c.entries@.len() && self.tier_c.entries@[i as int].0 == k,
                None => self.spec_tier(k) is None,
            },
    {
        proof {
            lemma_sym_dom(self.tier_a.entries@, k);
            lemma_sym_dom(self.tier_b.entries@, k);
            lemma_sym_dom(self.tier_c.entries@, k);
        }
        if let Some(i) = find_sym(&self.tier_a.entries, k) {
            return Some((Tier::A, i));
        }
        if let Some(i) = find_sym(&self.tier_b.entries, k) {
            return Some((Tier::B, i));
        }
        if let Some(i) = find_sym(&self.tier_c.entries, k) {
            return Some((Tier::C, i));
        }
        None
    }

    /// Records activity of `symbol_id` at `ts`.
    pub fn touch(&mut self, symbol_id: SymbolId, ts: u64)
        requires
            old(self).wf(),
        ensures
            final(self).wf(),
            final(self).a() == upd(old(self).a(), symbol_id, |d: TierData| TierData { last_activity: ts, ..d }),
            final(self).b() == upd(old(self).b(), symbol_id, |d: TierData| TierData { last_activity: ts, ..d }),
            final(self).c() == upd(old(self).c(), symbol_id, |d: TierData| TierData { last_activity: ts, ..d }),
            final(self).current_regime == old(self).current_regime,
            final(self).recently_evicted == old(self).recently_evicted,
    {
        let ghost f = |d: TierData| TierData { last_activity: ts, ..d };
        let ghost (sa, sb, sc) = (self.tier_a.entries@, self.tier_b.entries@, self.tier_c.entries@);
        match self.locate(symbol_id) {
            Some((Tier::A, i)) => {
                proof { lemma_sym_val(sa, i as int); }
                self.tier_a.entries[i].1.last_activity = ts;
                assert(self.tier_a.entries@ =~= sa.update(i as int, (symbol_id, f(sa[i as int].1))));
                proof { lemma_sym_update(sa, i as int, f(sa[i as int].1)); }
            }
            Some((Tier::B, i)) => {
                proof { lemma_sym_val(sb, i as int); }
                self.tier_b.entries[i].1.last_activity = ts;
                assert(self.tier_b.entries@ =~= sb.update(i as int, (symbol_id, f(sb[i as int].1))));
                proof { lemma_sym_update(sb, i as int, f(sb[i as int].1)); }
            }
            Some((Tier::C, i)) => {
                proof { lemma_sym_val(sc, i as int); }
                self.tier_c.entries[i].1.last_activity = ts;
                assert(self.tier_c.entries@ =~= sc.update(i as int, (symbol_id, f(sc[i as int].1))));
                proof { lemma_sym_update(sc, i as int, f(sc[i as int].1)); }
            }
            None => {}
        }
    }

    /// Counts a tick of `symbol_id` and resets its inactivity.
    pub fn update_tick_count(&mut self, symbol_id: SymbolId)
        requires
            old(self).wf(),
            old(self).a().contains_key(symbol_id) ==> old(self).a()[symbol_id].tick_count < u64::MAX,
            old(self).b().contains_key(symbol_id) ==> old(self).b()[symbol_id].tick_count < u64::MAX,
            old(self).c().contains_key(symbol_id) ==> old(self).c()[symbol_id].tick_count < u64::MAX,
        ensures
            final(self).wf(),
            final(self).a() == upd(old(self).a(), symbol_id, |d: TierData| tick_step(d)),
            final(self).b() == upd(old(self).b(), symbol_id, |d: TierData| tick_step(d)),
            final(self).c() == upd(old(self).c(), symbol_id, |d: TierData| tick_step(d)),
            final(self).current_regime == old(self).current_regime,
            final(self).recently_evicted == old(self).recently_evicted,
    {
        let ghost f = |d: TierData| tick_step(d);
        let ghost (sa, sb, sc) = (self.tier_a.entries@, self.tier_b.entries@, self.tier_c.entries@);
        match self.locate(symbol_id) {
            Some((Tier::A, i)) => {
                proof { lemma_sym_val(sa, i as int); }
                self.tier_a.entries[i].1.tick_count = self.tier_a.entries[i].1.tick_count + 1;
                self.tier_a.entries[i].1.inactive_cycles = 0;
                assert(self.tier_a.entries@ =~= sa.update(i as int, (symbol_id, f(sa[i as int].1))));
                proof { lemma_sym_update(sa, i as int, f(sa[i as int].1)); }
            }
            Some((Tier::B, i)) => {
                proof { lemma_sym_val(sb, i as int); }
                self.tier_b.entries[i].1.tick_count = self.tier_b.entries[i].1.tick_count + 1;
                self.tier_b.entries[i].1.inactive_cycles = 0;
                assert(self.tier_b.entries@ =~= sb.update(i as int, (symbol_id, f(sb[i as int].1))));
                proof { lemma_sym_update(sb, i as int, f(sb[i as int].1)); }
            }
            Some((Tier::C, i)) => {
                proof { lemma_sym_val(sc, i as int); }
                self.tier_c.entries[i].1.tick_count = self.tier_c.entries[i].1.tick_count + 1;
                self.tier_c.entries[i].1.inactive_cycles = 0;
                assert(self.tier_c.entries@ =~= sc.update(i as int, (symbol_id, f(sc[i as int].1))));
                proof { lemma_sym_update(sc, i as int, f(sc[i as int].1)); }
            }
            None => {}
        }
    }

    /// Stores the daily context and MTF analysis computed for `symbol_id`.
    pub fn update_symbol_context(&mut self, symbol_id: SymbolId, daily_ctx: DailyContext, mtf: MtfAnalysis)
        requires
            old(self).wf(),
        ensures
            final(self).wf(),
            final(self).a() == upd(old(self).a(), symbol_id, |d: TierData| context_step(d, daily_ctx, mtf)),
            final(self).b() == upd(old(self).b(), symbol_id, |d: TierData| context_step(d, daily_ctx, mtf)),
            final(self).c() == upd(old(self).c(), symbol_id, |d: TierData| context_step(d, daily_ctx, mtf)),
            final(self).current_regime == old(self).current_regime,
            final(self).recently_evicted == old(self).recently_evicted,
    {
        let ghost ctx = daily_ctx;
        let ghost f = |d: TierData| context_step(d, ctx, mtf);
        let ghost (sa, sb, sc) = (self.tier_a.entries@, self.tier_b.entries@, self.tier_c.entries@);
        match self.locate(symbol_id) {
            Some((Tier::A, i)) => {
                proof { lemma_sym_val(sa, i as int); }
                self.tier_a.entries[i].1.daily_context = Some(daily_ctx);
                self.tier_a.entries[i].1.mtf_analysis = Some(mtf);
                assert(self.tier_a.entries@ =~= sa.update(i as int, (symbol_id, f(sa[i as int].1))));
                proof { lemma_sym_update(sa, i as int, f(sa[i as int].1)); }
            }
            Some((Tier::B, i)) => {
                proof { lemma_sym_val(sb, i as int); }
                self.tier_b.entries[i].1.daily_context = Some(daily_ctx);
                self.tier_b.entries[i].1.mtf_analysis = Some(mtf);
                assert(self.tier_b.entries@ =~= sb.update(i as int, (symbol_id, f(sb[i as int].1))));
                proof { lemma_sym_update(sb, i as int, f(sb[i as int].1)); }
            }
            Some((Tier::C, i)) => {
                proof { lemma_sym_val(sc, i as int); }
                self.tier_c.entries[i].1.daily_context = Some(daily_ctx);
                self.tier_c.entries[i].1.mtf_analysis = Some(mtf);
                assert(self.tier_c.entries@ =~= sc.update(i as int, (symbol_id, f(sc[i as int].1))));
                proof { lemma_sym_update(sc, i as int, f(sc[i as int].1)); }
            }
            None => {}
        }
    }


    /// Moves a symbol one tier down: A to B, B to C (dropping its
    /// subscription), C out of the watchlist.
    pub fn demote(&mut self, symbol_id: SymbolId) -> (r: Result<(), &'static str>)
        requires
            old(self).wf(),
        ensures
            final(self).wf(),
            final(self).current_regime == old(self).current_regime,
            final(self).recently_evicted == old(self).recently_evicted,
            match old(self).spec_tier(symbol_id) {
                None => {
                    &&& r == Err::<(), &'static str>("Symbol not in watchlist")
                    &&& final(self).a() == old(self).a()
                    &&& final(self).b() == old(self).b()
                    &&& final(self).c() == old(self).c()
                },
                Some(Tier::A) => {
                    &&& r == Ok::<(), &'static str>(())
                    &&& final(self).a() == old(self).a().remove(symbol_id)
                    &&& final(self).b() == old(self).b().insert(symbol_id, demoted_to_b(old(self).a()[symbol_id]))
                    &&& final(self).c() == old(self).c()
                },
                Some(Tier::B) => {
                    &&& r == Ok::<(), &'static str>(())
                    &&& final(self).a() == old(self).a()
                    &&& final(self).b() == old(self).b().remove(symbol_id)
                    &&& final(self).c() == old(self).c().insert(symbol_id, demoted_to_c(old(self).b()[symbol_id]))
                },
                Some(Tier::C) => {
                    &&& r == Ok::<(), &'static str>(())
                    &&& final(self).a() == old(self).a()
                    &&& final(self).b() == old(self).b()
                    &&& final(self).c() == old(self).c().remove(symbol_id)
                },
            },
    {
        let ghost (sa, sb, sc) = (self.tier_a.entries@, self.tier_b.entries@, self.tier_c.entries@);
        match self.locate(symbol_id) {
            Some((Tier::A, i)) => {
                proof {
                    lemma_sym_val(sa, i as int);
                    lemma_sym_remove(sa, i as int);
                }
                let (k, mut d) = self.tier_a.entries.remove(i);
                d.tier = Tier::B;
                proof { lemma_sym_push(sb, k, d); }
                self.tier_b.entries.push((k, d));
                Ok(())
            }
            Some((Tier::B, i)) => {
                proof {
                    lemma_sym_val(sb, i as int);
                    lemma_sym_remove(sb, i as int);
                }
                let (k, mut d) = self.tier_b.entries.remove(i);
                d.tier = Tier::C;
                d.subscription_status = SubscriptionStatus::Unsubscribed;
                proof { lemma_sym_push(sc, k, d); }
                self.tier_c.entries.push((k, d));
                Ok(())
            }
            Some((Tier::C, i)) => {
                proof {
                    lemma_sym_val(sc, i as int);
                    lemma_sym_remove(sc, i as int);
                }
                let _ = self.tier_c.entries.remove(i);
                Ok(())
            }
            None => Err("Symbol not in watchlist"),
        }
    }

    /// Moves a tick-ready symbol one tier up (C to B with a pending
    /// subscription, B to A), within the tier caps and subscription budget.
    pub fn promote(&mut self, symbol_id: SymbolId, metrics: &mut MetricsCollector) -> (r: Result<(), &'static str>)
        requires
            old(self).wf(),
            old(metrics).symbols_promoted < u64::MAX,
        ensures
            final(self).wf(),
            r == promote_result(*old(self), symbol_id),
            final(self).current_regime == old(self).current_regime,
            final(self).recently_evicted == old(self).recently_evicted,
            (r is Err) ==> {
                &&& final(self).a() == old(self).a()
                &&& final(self).b() == old(self).b()
                &&& final(self).c() == old(self).c()
                &&& *final(metrics) == *old(metrics)
            },
            (r is Ok) ==> *final(metrics) == promoted_count(*old(metrics)),
            (r is Ok) && old(self).spec_tier(symbol_id) == Some(Tier::C) ==> {
                &&& final(self).a() == old(self).a()
                &&& final(self).b() == old(self).b().insert(symbol_id, promoted_to_b(old(self).c()[symbol_id]))
                &&& final(self).c() == old(self).c().remove(symbol_id)
            },
            (r is Ok) && old(self).spec_tier(symbol_id) == Some(Tier::B) ==> {
                &&& final(self).a() == old(self).a().insert(symbol_id, promoted_to_a(old(self).b()[symbol_id]))
                &&& final(self).b() == old(self).b().remove(symbol_id)
                &&& final(self).c() == old(self).c()
            },
    {
        let ghost (sa, sb, sc) = (self.tier_a.entries@, self.tier_b.entries@, self.tier_c.entries@);
        proof {
            lemma_sym_len(sa);
            lemma_sym_len(sb);
        }
        match self.locate(symbol_id) {
            None => Err("Symbol not in watchlist"),
            Some((Tier::A, _)) => Err("Already in Tier A"),
            Some((Tier::C, i)) => {
                proof { lemma_sym_val(sc, i as int); }
                if self.tier_b.entries.len() >= MAX_TIER_B {
                    return Err("Tier B full");
                }
                if self.tier_b.entries.len() >= MAX_TOTAL_SUBSCRIPTIONS
                    || self.tier_a.entries.len() >= MAX_TOTAL_SUBSCRIPTIONS - self.tier_b.entries.len() {
                    return Err("Max subscriptions reached");
                }
                if self.tier_c.entries[i].1.tick_count < TICK_READY_THRESHOLD {
                    return Err("Not TickReady");
                }
                proof { lemma_sym_remove(sc, i as int); }
                let (k, mut d) = self.tier_c.entries.remove(i);
                d.tier = Tier::B;
                d.subscription_status = SubscriptionStatus::Pending;
                proof { lemma_sym_push(sb, k, d); }
                self.tier_b.entries.push((k, d));
                metrics.symbols_promoted = metrics.symbols_promoted + 1;
                Ok(())
            }
            Some((Tier::B, i)) => {
                proof { lemma_sym_val(sb, i as int); }
                if self.tier_a.entries.len() >= MAX_TIER_A {
                    return Err("Tier A full");
                }
                if self.tier_b.entries[i].1.tick_count < TICK_READY_THRESHOLD {
                    return Err("Not TickReady for Tier A");
                }
                proof { lemma_sym_remove(sb, i as int); }
                let (k, mut d) = self.tier_b.entries.remove(i);
                d.tier = Tier::A;
                proof { lemma_sym_push(sa, k, d); }
                self.tier_a.entries.push((k, d));
                metrics.symbols_promoted = metrics.symbols_promoted + 1;
                Ok(())
            }
        }
    }

    fn oldest_index(&self) -> (r: usize)
        requires
            self.tier_c.entries@.len() > 0,
        ensures
            is_oldest(self.tier_c.entries@, r as int),
    {
        let n = self.tier_c.entries.len();
        let mut best: usize = 0;
        let mut i: usize = 1;
        while i < n
            invariant
                n == self.tier_c.entries@.len(),
                1 <= i <= n,
                best < i,
                forall|j: int| 0 <= j < i ==> self.tier_c.entries@[best as int].1.last_activity <= self.tier_c.entries@[j].1.last_activity,
                forall|j: int| 0 <= j < best ==> self.tier_c.entries@[j].1.last_activity > self.tier_c.entries@[best as int].1.last_activity,
            decreases n - i,
        {
            if self.tier_c.entries[i].1.last_activity < self.tier_c.entries[best].1.last_activity {
                best = i;
            }
            i = i + 1;
        }
        best
    }

    /// Adds a candidate to tier C. A full tier C first evicts its least recently
    /// active symbol, which then cools down for `eviction_cycles` cycles.
    pub fn add_candidate(&mut self, symbol_id: SymbolId, eviction_cycles: u32, metrics: &mut MetricsCollector) -> (r: Result<(), &'static str>)
        requires
            old(self).wf(),
            old(metrics).symbols_evicted < u64::MAX,
        ensures
            final(self).wf(),
            r == add_result(*old(self), symbol_id),
            final(self).current_regime == old(self).current_regime,
            final(self).a() == old(self).a(),
            final(self).b() == old(self).b(),
            (r is Err) ==> {
                &&& final(self).c() == old(self).c()
                &&& final(self).recently_evicted == old(self).recently_evicted
                &&& *final(metrics) == *old(metrics)
            },
            (r is Ok) ==> {
                let full = old(self).tier_c.entries@.len() >= MAX_TIER_C;
                let k = oldest_symbol(old(self).tier_c.entries@);
                &&& final(self).c() == (if full { old(self).c().remove(k) } else { old(self).c() })
                    .insert(symbol_id, fresh_data(Tier::C))
                &&& final(self).recently_evicted@ == (if full {
                    old(self).recently_evicted@.insert(k, eviction_cycles)
                } else {
                    old(self).recently_evicted@
                })
                &&& *final(metrics) == (if full { evicted_count(*old(metrics), 1) } else { *old(metrics) })
            },
    {
        if self.recently_evicted.contains_key(&symbol_id) {
            return Err("Recently evicted, cannot re-promote yet");
        }
        if self.get_tier(symbol_id).is_some() {
            return Err("Already in watchlist");
        }
        let ghost sc = self.tier_c.entries@;
        if self.tier_c.entries.len() >= MAX_TIER_C {
            let i = self.oldest_index();
            proof {
                assert forall|j: int| is_oldest(sc, j) implies j == i by {
                    if j < i {
                    } else if j > i {
                    }
                }
                lemma_sym_val(sc, i as int);
                lemma_sym_remove(sc, i as int);
            }
            let (oldest_id, _) = self.tier_c.entries.remove(i);
            self.recently_evicted.insert(oldest_id, eviction_cycles);
            metrics.symbols_evicted = metrics.symbols_evicted + 1;
        }
        let ghost sc2 = self.tier_c.entries@;
        proof {
            lemma_sym_dom(sc2, symbol_id);
            lemma_sym_dom(sc, symbol_id);
            lemma_sym_push(sc2, symbol_id, fresh_data(Tier::C));
        }
        let d = TierData::new(Tier::C);
        self.tier_c.entries.push((symbol_id, d));
        Ok(())
    }


    /// One lifecycle cycle: every symbol ages by one inactive cycle, cooldowns
    /// count down, tier A and B symbols that are due are demoted one tier, and
    /// tier C symbols inactive for `eviction_cycles` cycles are evicted into the
    /// cooldown list.
    pub fn process_lifecycle(
        &mut self,
        demotion_cycles: u32,
        eviction_cycles: u32,
        min_quality_score: OrdKey,
        min_volume: u64,
        metrics: &mut MetricsCollector,
    )
        requires
            old(self).wf(),
            forall|k: SymbolId| old(self).a().contains_key(k) ==> old(self).a()[k].inactive_cycles < u32::MAX,
            forall|k: SymbolId| old(self).b().contains_key(k) ==> old(self).b()[k].inactive_cycles < u32::MAX,
            forall|k: SymbolId| old(self).c().contains_key(k) ==> old(self).c()[k].inactive_cycles < u32::MAX,
            old(metrics).symbols_demoted + old(self).tier_a.entries@.len() + old(self).tier_b.entries@.len() <= u64::MAX,
            old(metrics).symbols_evicted + old(self).tier_c.entries@.len() <= u64::MAX,
            old(self).tier_a.entries@.len() + old(self).tier_b.entries@.len() + old(self).tier_c.entries@.len() <= usize::MAX,
        ensures
            final(self).wf(),
            final(self).current_regime == old(self).current_regime,
            final(self).a() == filter_map_values(old(self).a(),
                stays(demotion_cycles, min_quality_score, min_volume), aged_fn()),
            final(self).b() == filter_map_values(old(self).b(),
                stays(demotion_cycles, min_quality_score, min_volume), aged_fn()).union_prefer_right(
                filter_map_values(old(self).a(), leaves(demotion_cycles, min_quality_score, min_volume),
                    lowered_fn(Tier::B))),
            final(self).c() == filter_map_values(old(self).c(), stays_cold(eviction_cycles), aged_fn())
                .union_prefer_right(filter_map_values(old(self).b(),
                    leaves(demotion_cycles, min_quality_score, min_volume), lowered_fn(Tier::C))),
            final(self).recently_evicted@ == counted_down(old(self).recently_evicted@).union_prefer_right(
                filter_map_values(old(self).c(), evicted_now(eviction_cycles), const_fn(eviction_cycles))),
            *final(metrics) == lifecycle_counts(*old(metrics),
                filter_map_values(old(self).a(), leaves(demotion_cycles, min_quality_score, min_volume), lowered_fn(Tier::B)).len()
                    + filter_map_values(old(self).b(), leaves(demotion_cycles, min_quality_score, min_volume), lowered_fn(Tier::C)).len(),
                filter_map_values(old(self).c(), evicted_now(eviction_cycles), const_fn(eviction_cycles)).len(),
                final(self).c().len(),
                final(self).a().len() + final(self).b().len() + final(self).c().len()),
    {
        let ghost (sa, sb, sc) = (self.tier_a.entries@, self.tier_b.entries@, self.tier_c.entries@);
        let ghost (dc, mq, mv, ec) = (demotion_cycles, min_quality_score, min_volume, eviction_cycles);
        proof {
            assert forall|i: int| 0 <= i < sa.len() implies sa[i].1.inactive_cycles < u32::MAX by {
                lemma_sym_val(sa, i);
            }
            assert forall|i: int| 0 <= i < sb.len() implies sb[i].1.inactive_cycles < u32::MAX by {
                lemma_sym_val(sb, i);
            }
            assert forall|i: int| 0 <= i < sc.len() implies sc[i].1.inactive_cycles < u32::MAX by {
                lemma_sym_val(sc, i);
            }
        }
        let (keep_a, mut down_a) = split_tier(&self.tier_a.entries, demotion_cycles, min_quality_score, min_volume, Tier::B);
        let (mut keep_b, mut down_b) = split_tier(&self.tier_b.entries, demotion_cycles, min_quality_score, min_volume, Tier::C);
        let (mut keep_c, gone) = sweep_cold(&self.tier_c.entries, eviction_cycles);
        proof {
            lemma_filter_entries(sa, stays(dc, mq, mv), aged_fn());
            lemma_filter_entries(sa, leaves(dc, mq, mv), lowered_fn(Tier::B));
            lemma_filter_entries(sb, stays(dc, mq, mv), aged_fn());
            lemma_filter_entries(sb, leaves(dc, mq, mv), lowered_fn(Tier::C));
            lemma_filter_entries(sc, stays_cold(ec), aged_fn());
            lemma_filter_entries(sc, evicted_now(ec), const_fn(ec));
            lemma_sym_len(down_a@);
            lemma_sym_len(down_b@);
            lemma_sym_len(gone@);
            lemma_sym_len(sa);
            lemma_sym_len(sb);
            lemma_sym_len(sc);
            lemma_sym_concat(keep_b@, down_a@);
            lemma_sym_concat(keep_c@, down_b@);
            assert forall|v: TierData| #[trigger] stays(dc, mq, mv)(v) == !leaves(dc, mq, mv)(v) by {}
            assert forall|v: TierData| #[trigger] stays_cold(ec)(v) == !evicted_now(ec)(v) by {}
            lemma_filter_split(sa, stays(dc, mq, mv), aged_fn(), leaves(dc, mq, mv), lowered_fn(Tier::B));
            lemma_filter_split(sb, stays(dc, mq, mv), aged_fn(), leaves(dc, mq, mv), lowered_fn(Tier::C));
            lemma_filter_split(sc, stays_cold(ec), aged_fn(), evicted_now(ec), const_fn(ec));
        }
        let n_demoted = down_a.len() + down_b.len();
        let n_evicted = gone.len();
        keep_b.append(&mut down_a);
        keep_c.append(&mut down_b);
        self.tier_a.entries = keep_a;
        self.tier_b.entries = keep_b;
        self.tier_c.entries = keep_c;
        proof {
            lemma_sym_len(self.tier_a.entries@);
            lemma_sym_len(self.tier_b.entries@);
            lemma_sym_len(self.tier_c.entries@);
        }
        let cold = self.tier_c.entries.len();
        let current = self.tier_c.entries.len() + self.tier_b.entries.len() + self.tier_a.entries.len();
        self.recently_evicted.count_down();
        let ghost base = self.recently_evicted@;
        let ghost (ta, tb, tc) = (self.tier_a.entries@, self.tier_b.entries@, self.tier_c.entries@);
        let ghost regime = self.current_regime;
        let m = gone.len();
        let mut j: usize = 0;
        while j < m
            invariant
                m == gone@.len(),
                j <= m,
                self.recently_evicted.wf(),
                self.recently_evicted@ == base.union_prefer_right(sym_map(gone@.take(j as int))),
                self.tier_a.entries@ == ta,
                self.tier_b.entries@ == tb,
                self.tier_c.entries@ == tc,
                self.current_regime == regime,
            decreases m - j,
        {
            let (k, c) = gone[j];
            self.recently_evicted.insert(k, c);
            assert(gone@.take(j + 1).drop_last() =~= gone@.take(j as int));
            assert(self.recently_evicted@ =~= base.union_prefer_right(sym_map(gone@.take(j + 1))));
            j = j + 1;
        }
        assert(gone@.take(m as int) =~= gone@);
        metrics.symbols_demoted = metrics.symbols_demoted + n_demoted as u64;
        metrics.symbols_evicted = metrics.symbols_evicted + n_evicted as u64;
        metrics.cold_symbol_count = cold as u64;
        metrics.current_count = current as u64;
        metrics.budget = (MAX_TIER_A + MAX_TIER_B + MAX_TIER_C) as u64;
    }

    /// The counts, regime, contexts and analyses of the watchlist.
    pub fn snapshot(&self) -> (s: WatchlistSnapshot)
        requires
            self.wf(),
            self.tier_a.entries@.len() + self.tier_b.entries@.len() <= usize::MAX,
        ensures
            s.tier_a_count == self.a().len(),
            s.tier_b_count == self.b().len(),
            s.tier_c_count == self.c().len(),
            s.total_subscriptions == self.a().len() + self.b().len(),
            s.regime == self.current_regime,
            s.contexts.wf(),
            s.mtf_results.wf(),
            s.contexts@ == contexts_in(self.a()).union_prefer_right(contexts_in(self.b())).union_prefer_right(
                contexts_in(self.c()),
            ),
            s.mtf_results@ == analyses_in(self.a()).union_prefer_right(analyses_in(self.b())).union_prefer_right(
                analyses_in(self.c()),
            ),
    {
        let mut contexts: SymMap<DailyContext> = SymMap::new();
        let mut mtf_results: SymMap<MtfAnalysis> = SymMap::new();
        collect_tier(&self.tier_a.entries, &mut contexts, &mut mtf_results);
        collect_tier(&self.tier_b.entries, &mut contexts, &mut mtf_results);
        collect_tier(&self.tier_c.entries, &mut contexts, &mut mtf_results);
        proof {
            lemma_sym_len(self.tier_a.entries@);
            lemma_sym_len(self.tier_b.entries@);
            lemma_sym_len(self.tier_c.entries@);
            assert(Map::<SymbolId, DailyContext>::empty().union_prefer_right(contexts_in(self.a())) =~= contexts_in(self.a()));
            assert(Map::<SymbolId, MtfAnalysis>::empty().union_prefer_right(analyses_in(self.a())) =~= analyses_in(self.a()));
        }
        WatchlistSnapshot {
            tier_a_count: self.tier_a.entries.len(),
            tier_b_count: self.tier_b.entries.len(),
            tier_c_count: self.tier_c.entries.len(),
            total_subscriptions: self.total_subscriptions(),
            regime: self.current_regime,
            contexts,
            mtf_results,
        }
    }

    /// Tiers A and B each hold a market-data subscription.
    pub fn total_subscriptions(&self) -> (r: usize)
        requires
            self.wf(),
            self.tier_a.entries@.len() + self.tier_b.entries@.len() <= usize::MAX,
        ensures
            r == self.a().len() + self.b().len(),
    {
        proof {
            lemma_sym_len(self.tier_a.entries@);
            lemma_sym_len(self.tier_b.entries@);
        }
        self.tier_a.entries.len() + self.tier_b.entries.len()
    }
}

impl Default for Watchlist {
    /// An empty watchlist in the Normal regime.
    fn default() -> (r: Self)
        ensures
            r.wf(),
            r.a() == Map::<SymbolId, TierData>::empty(),
            r.b() == Map::<SymbolId, TierData>::empty(),
            r.c() == Map::<SymbolId, TierData>::empty(),
            r.current_regime == RegimeState::Normal,
            r.recently_evicted@ == Map::<SymbolId, u32>::empty(),
    {
        Watchlist::new()
    }
}

/// A promotion never takes tier B past its cap, tiers A and B past the
/// subscription budget, or tier A past its cap, and needs enough ticks; a
/// symbol in its eviction cooldown cannot come back as a candidate.
pub proof fn law_promotion_limits(w: Watchlist, k: SymbolId)
    ensures
        promote_result(w, k) is Ok && w.spec_tier(k) == Some(Tier::C) ==> {
            &&& w.b().len() + 1 <= MAX_TIER_B
            &&& w.a().len() + w.b().len() + 1 <= MAX_TOTAL_SUBSCRIPTIONS
            &&& w.c()[k].tick_count >= TICK_READY_THRESHOLD
        },
        promote_result(w, k) is Ok && w.spec_tier(k) == Some(Tier::B) ==> {
            &&& w.a().len() + 1 <= MAX_TIER_A
            &&& w.b()[k].tick_count >= TICK_READY_THRESHOLD
        },
        promote_result(w, k) is Ok ==> w.spec_tier(k) == Some(Tier::B) || w.spec_tier(k) == Some(Tier::C),
        w.recently_evicted@.contains_key(k) ==> add_result(w, k) is Err,
{
}

/// A tick of a watched symbol counts one more tick, clears its inactivity
/// and changes nothing else of it or of any other symbol.
pub proof fn law_tick_resets_inactivity(m: Map<SymbolId, TierData>, k: SymbolId)
    requires
        m.contains_key(k),
        m[k].tick_count < u64::MAX,
    ensures
        ({
            let r = upd(m, k, |d: TierData| tick_step(d));
            &&& r.dom() == m.dom()
            &&& r[k].inactive_cycles == 0
            &&& r[k].tick_count == m[k].tick_count + 1
            &&& r[k].tier == m[k].tier
            &&& r[k].last_activity == m[k].last_activity
            &&& r[k].cold_start_state == m[k].cold_start_state
            &&& forall|j: SymbolId| j != k && m.contains_key(j) ==> r[j] == m[j]
        }),
{
    let r = upd(m, k, |d: TierData| tick_step(d));
    assert(r.dom() =~= m.dom());
}

/// What each tier move does to a symbol's data: a promotion to B makes its
/// subscription pending, a demotion to C drops it, a promotion to A or a
/// demotion to B only changes the tier; a context update stores the daily
/// context and the MTF analysis; none of them touches the tick count or the
/// inactivity count.
pub proof fn law_tier_moves(d: TierData, ctx: DailyContext, mtf: MtfAnalysis)
    ensures
        promoted_to_b(d).tier == Tier::B && promoted_to_b(d).subscription_status == SubscriptionStatus::Pending,
        promoted_to_a(d).tier == Tier::A && promoted_to_a(d).subscription_status == d.subscription_status,
        demoted_to_b(d).tier == Tier::B && demoted_to_b(d).subscription_status == d.subscription_status,
        demoted_to_c(d).tier == Tier::C && demoted_to_c(d).subscription_status == SubscriptionStatus::Unsubscribed,
        context_step(d, ctx, mtf).daily_context == Some(ctx) && context_step(d, ctx, mtf).mtf_analysis == Some(mtf),
        promoted_to_b(d).tick_count == d.tick_count && promoted_to_a(d).tick_count == d.tick_count,
        demoted_to_b(d).tick_count == d.tick_count && demoted_to_c(d).tick_count == d.tick_count,
        context_step(d, ctx, mtf).tick_count == d.tick_count,
        context_step(d, ctx, mtf).inactive_cycles == d.inactive_cycles,
        promoted_to_b(d).inactive_cycles == d.inactive_cycles && promoted_to_a(d).inactive_cycles
            == d.inactive_cycles,
{
}

} // verus!
