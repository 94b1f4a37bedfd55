use penny_scalper::context::{ContextEngine, ContextParams};
use penny_scalper::metrics::MetricsCollector;
use penny_scalper::mtf::{MtfEngine, MtfParams};
use penny_scalper::regime::{RegimeEngine, RegimeParams};
use penny_scalper::types::{
    ColdStartState, ContextState, DataQuality, OrdKey, RegimeState, SectorMomentum, SymbolId, Tier,
};
use penny_scalper::watchlist::{
    TierData, Watchlist, MAX_TIER_C, MAX_TOTAL_SUBSCRIPTIONS, TICK_READY_THRESHOLD, WARM_BUFFER_TICKS,
};

fn kv(x: f64) -> OrdKey {
    OrdKey::from_bits(x.to_bits())
}

#[test]
fn test_mtf_evaluation() {
    let params = MtfParams { require_all: true, stale_data_threshold_ms: 3600000 };
    let symbol = SymbolId(1);
    let mut engine = MtfEngine::new(symbol, params);

    engine.update_price(kv(10.0));
    engine.update_weekly_ema(kv(9.0), 1000);
    engine.update_daily_resistance(kv(9.5), 1000);
    engine.update_4h_structure(true, 1000);
    engine.update_15m_pullback(true, 1000);

    let analysis = engine.evaluate(2000);
    assert!(analysis.weekly_trend_confirmed);
    assert!(analysis.daily_resistance_cleared);
    assert!(analysis.structure_4h_bullish);
    assert!(analysis.pullback_15m_valid);
    assert!(analysis.mtf_pass);
}

#[test]
fn test_mtf_fail() {
    let params = MtfParams { require_all: true, stale_data_threshold_ms: 3600000 };
    let mut engine = MtfEngine::new(SymbolId(1), params);
    engine.update_price(kv(10.0));

    engine.update_weekly_ema(kv(11.0), 1000);
    engine.update_daily_resistance(kv(9.5), 1000);
    engine.update_4h_structure(true, 1000);
    engine.update_15m_pullback(true, 1000);

    let analysis = engine.evaluate(2000);
    assert!(!analysis.weekly_trend_confirmed);
    assert!(!analysis.mtf_pass);
}

#[test]
fn test_mtf_stale_data() {
    let params = MtfParams { require_all: true, stale_data_threshold_ms: 1000 };
    let mut engine = MtfEngine::new(SymbolId(1), params);
    engine.update_price(kv(10.0));

    engine.update_weekly_ema(kv(9.0), 1_000_000);
    engine.update_daily_resistance(kv(9.5), 1_000_000);
    engine.update_4h_structure(true, 1_000_000);
    engine.update_15m_pullback(true, 1_000_000);

    let analysis_ok = engine.evaluate(1_500_000);
    assert!(analysis_ok.mtf_pass);

    let analysis_stale = engine.evaluate(3_000_000);
    assert!(!analysis_stale.weekly_trend_confirmed);
    assert!(!analysis_stale.daily_resistance_cleared);
    assert!(!analysis_stale.structure_4h_bullish);
    assert!(!analysis_stale.pullback_15m_valid);
    assert!(!analysis_stale.mtf_pass);
}

#[test]
fn test_zero_default_prevention() {
    let params = MtfParams { require_all: true, stale_data_threshold_ms: 3600000 };
    let mut engine = MtfEngine::new(SymbolId(1), params);
    engine.update_price(kv(10.0));

    engine.update_weekly_ema(kv(0.0), 1000);
    engine.update_daily_resistance(kv(0.0), 1000);
    engine.update_4h_structure(true, 1000);
    engine.update_15m_pullback(true, 1000);

    let analysis = engine.evaluate(2000);

    assert!(!analysis.weekly_trend_confirmed);
    assert!(!analysis.daily_resistance_cleared);
    assert!(!analysis.mtf_pass);
}

#[test]
fn mtf_three_of_four_in_relaxed_mode() {
    let mut engine = MtfEngine::new(SymbolId(2), MtfParams { require_all: false, ..MtfParams::default() });
    engine.update_price(kv(10.0));
    engine.update_weekly_ema(kv(9.0), 1000);
    engine.update_4h_structure(true, 1000);
    engine.update_15m_pullback(true, 1000);
    let a = engine.evaluate(2000);
    assert!(!a.daily_resistance_cleared);
    assert!(a.mtf_pass);
    engine.update_15m_pullback(false, 1000);
    assert!(!engine.evaluate(2000).mtf_pass);
}

#[test]
fn test_transitions() {
    let mut engine = RegimeEngine::new(RegimeParams::default());
    assert_eq!(engine.state(), RegimeState::Normal);

    engine.update_data_quality(DataQuality::Degraded);
    assert_eq!(engine.state(), RegimeState::RiskOff);
    engine.update_data_quality(DataQuality::Normal);
    assert_eq!(engine.state(), RegimeState::Normal);

    engine.update_calendar_risk(true);
    assert_eq!(engine.state(), RegimeState::Caution);
    engine.update_calendar_risk(false);
    assert_eq!(engine.state(), RegimeState::Normal);

    engine.update_atr(kv(0.0020));
    assert_eq!(engine.state(), RegimeState::Caution);
    engine.update_atr(kv(0.0030));
    assert_eq!(engine.state(), RegimeState::RiskOff);
    engine.update_atr(kv(0.0015));
    assert_eq!(engine.state(), RegimeState::Normal);

    engine.update_breadth(kv(0.40));
    assert_eq!(engine.state(), RegimeState::Caution);
    engine.update_breadth(kv(0.30));
    assert_eq!(engine.state(), RegimeState::RiskOff);
    engine.update_breadth(kv(0.50));
    assert_eq!(engine.state(), RegimeState::Normal);
}

#[test]
fn regime_spread_widening() {
    let mut engine = RegimeEngine::new(RegimeParams::default());
    // a widening without a baseline does not count
    engine.update_current_spread(kv(0.03), kv(2.0));
    assert_eq!(engine.state(), RegimeState::Normal);
    engine.set_spread_baseline(kv(0.02), kv((0.031 - 0.02) / 0.02));
    assert_eq!(engine.state(), RegimeState::RiskOff);
    engine.update_current_spread(kv(0.025), kv((0.025 - 0.02) / 0.02));
    assert_eq!(engine.state(), RegimeState::Caution);
    assert_eq!(engine.calculate_state(), RegimeState::Caution);
}

fn set_volume(engine: &mut ContextEngine, current: u64, avg: u64, surge: bool) {
    let ratio = if avg > 0 { current as f64 / avg as f64 } else { 0.0 };
    engine.update_volume(current, avg, surge, kv(ratio));
}

fn set_window(engine: &mut ContextEngine, high: f64, low: f64) {
    let range = if high > 0.0 { (high - low) / high } else { 0.0 };
    engine.update_price_window(kv(high), kv(low), kv(range));
}

#[test]
fn test_context_computation() {
    let params = ContextParams::default();
    let symbol = SymbolId(1);
    let mut engine = ContextEngine::new(symbol, params);

    let ctx = engine.compute_context();
    assert_eq!(ctx.state, ContextState::Undetermined);

    set_volume(&mut engine, 1_500_000, 1_000_000, false);
    assert_eq!(engine.compute_context().state, ContextState::NoPlay);

    set_volume(&mut engine, 2_500_000, 1_000_000, false);
    assert_eq!(engine.compute_context().state, ContextState::Undetermined);

    engine.update_news(true);
    assert_eq!(engine.compute_context().state, ContextState::Play);
    engine.update_news(false);

    engine.update_sector_momentum(SectorMomentum {
        etf_symbol: "XLF".to_string(),
        change_pct: kv(2.5),
        is_favorable: true,
    });
    assert_eq!(engine.compute_context().state, ContextState::Play);

    engine.update_sector_momentum(SectorMomentum {
        etf_symbol: "XLF".to_string(),
        change_pct: kv(1.0),
        is_favorable: true,
    });
    assert_eq!(engine.compute_context().state, ContextState::Undetermined);

    set_volume(&mut engine, 3_000_000, 1_000_000, true);
    assert_eq!(engine.compute_context().state, ContextState::Play);

    set_window(&mut engine, 100.0, 99.95);
    assert!(engine.is_churning);
    assert_eq!(engine.compute_context().state, ContextState::NoPlay);

    set_window(&mut engine, 100.0, 98.0);
    assert!(!engine.is_churning);
    assert_eq!(engine.compute_context().state, ContextState::Play);
}

#[test]
fn context_negative_sector_move_counts_by_size() {
    let mut engine = ContextEngine::new(SymbolId(3), ContextParams::default());
    set_volume(&mut engine, 2_200_000, 1_000_000, false);
    engine.update_sector_momentum(SectorMomentum {
        etf_symbol: "XLE".to_string(),
        change_pct: kv(-2.1),
        is_favorable: true,
    });
    assert_eq!(engine.compute_context().state, ContextState::Play);
    let ctx = engine.compute_context();
    assert_eq!(ctx.symbol_id, SymbolId(3));
    assert_eq!(ctx.volume_profile.current_volume, 2_200_000);
}

#[test]
fn test_promotion_path() {
    let mut wl = Watchlist::new();
    let mut metrics = MetricsCollector::default();
    let sym = SymbolId(1);

    wl.add_candidate(sym, 5, &mut metrics).unwrap();
    assert_eq!(wl.get_tier(sym), Some(Tier::C));

    assert!(wl.promote(sym, &mut metrics).is_err());

    for _ in 0..TICK_READY_THRESHOLD {
        wl.update_tick_count(sym);
    }

    wl.promote(sym, &mut metrics).unwrap();
    assert_eq!(wl.get_tier(sym), Some(Tier::B));

    wl.promote(sym, &mut metrics).unwrap();
    assert_eq!(wl.get_tier(sym), Some(Tier::A));

    assert!(wl.promote(sym, &mut metrics).is_err());
}

#[test]
fn test_demotion_path() {
    let mut wl = Watchlist::new();
    let mut metrics = MetricsCollector::default();
    let sym = SymbolId(1);

    wl.add_candidate(sym, 5, &mut metrics).unwrap();
    if let Some(d) = wl.get_data_mut(sym) {
        d.tick_count = 100;
    }

    wl.promote(sym, &mut metrics).unwrap();
    wl.promote(sym, &mut metrics).unwrap();

    wl.demote(sym).unwrap();
    assert_eq!(wl.get_tier(sym), Some(Tier::B));

    wl.demote(sym).unwrap();
    assert_eq!(wl.get_tier(sym), Some(Tier::C));

    wl.demote(sym).unwrap();
    assert_eq!(wl.get_tier(sym), None);
}

#[test]
fn test_subscription_limits() {
    let mut wl = Watchlist::new();
    let mut metrics = MetricsCollector::default();
    for i in 0..MAX_TOTAL_SUBSCRIPTIONS {
        let sym = SymbolId(i as u32);
        wl.add_candidate(sym, 5, &mut metrics).unwrap();
        if let Some(d) = wl.get_data_mut(sym) {
            d.tick_count = 100;
        }
        wl.promote(sym, &mut metrics).unwrap();
    }

    let extra = SymbolId(1000);
    wl.add_candidate(extra, 5, &mut metrics).unwrap();
    if let Some(d) = wl.get_data_mut(extra) {
        d.tick_count = 100;
    }

    assert!(wl.promote(extra, &mut metrics).is_err());
}

#[test]
fn test_cold_start_controller() {
    let mut data = TierData::new(Tier::B);
    assert_eq!(data.cold_start_state, ColdStartState::ColdStart);
    assert_eq!(data.acceleration_weight(), kv(0.0));

    data.update_cold_start(false);
    assert_eq!(data.cold_start_state, ColdStartState::WarmActive);
    assert_eq!(data.acceleration_weight(), kv(0.5));

    for _ in 0..WARM_BUFFER_TICKS {
        data.update_cold_start(false);
    }
    assert_eq!(data.cold_start_state, ColdStartState::FullActive);
    assert_eq!(data.acceleration_weight(), kv(1.0));
}

#[test]
fn test_surge_override() {
    let mut data = TierData::new(Tier::B);
    data.update_cold_start(true);
    assert_eq!(data.cold_start_state, ColdStartState::FullActive);
    assert_eq!(data.acceleration_weight(), kv(1.0));
}

#[test]
fn test_saturation_and_eviction() {
    let mut wl = Watchlist::new();
    let mut metrics = MetricsCollector::default();
    let eviction_cycles = 5;

    for i in 0..MAX_TIER_C {
        let sym = SymbolId(i as u32);
        wl.add_candidate(sym, eviction_cycles, &mut metrics).unwrap();
        wl.touch(sym, i as u64);
    }

    assert_eq!(wl.tier_c.len(), MAX_TIER_C);

    let sym_new = SymbolId(MAX_TIER_C as u32);
    wl.add_candidate(sym_new, eviction_cycles, &mut metrics).unwrap();

    assert_eq!(wl.tier_c.len(), MAX_TIER_C);
    assert!(!wl.tier_c.contains_key(&SymbolId(0)));
    assert!(wl.tier_c.contains_key(&sym_new));
    assert_eq!(metrics.symbols_evicted, 1);
}

#[test]
fn test_churn_prevention() {
    let mut wl = Watchlist::new();
    let mut metrics = MetricsCollector::default();
    let eviction_cycles = 5;
    let sym = SymbolId(1);

    wl.add_candidate(sym, eviction_cycles, &mut metrics).unwrap();

    wl.tier_c.remove(&sym);
    wl.recently_evicted.insert(sym, 3);

    assert!(wl.add_candidate(sym, eviction_cycles, &mut metrics).is_err());

    for _ in 0..3 {
        wl.process_lifecycle(3, eviction_cycles, kv(45.0), 500000, &mut metrics);
    }

    assert!(!wl.recently_evicted.contains_key(&sym));

    assert!(wl.add_candidate(sym, eviction_cycles, &mut metrics).is_ok());
}

#[test]
fn test_cold_timeout_eviction() {
    let mut wl = Watchlist::new();
    let mut metrics = MetricsCollector::default();
    let demotion_cycles = 3;
    let eviction_cycles = 5;
    let sym = SymbolId(1);

    wl.add_candidate(sym, eviction_cycles, &mut metrics).unwrap();

    for _ in 0..4 {
        wl.process_lifecycle(demotion_cycles, eviction_cycles, kv(45.0), 500000, &mut metrics);
    }

    assert!(wl.tier_c.contains_key(&sym));

    wl.process_lifecycle(demotion_cycles, eviction_cycles, kv(45.0), 500000, &mut metrics);

    assert!(!wl.tier_c.contains_key(&sym));
    assert_eq!(metrics.symbols_evicted, 1);

    assert!(wl.recently_evicted.contains_key(&sym));
}

#[test]
fn test_fifo_fairness() {
    let mut wl = Watchlist::new();
    let mut metrics = MetricsCollector::default();
    let eviction_cycles = 5;

    for i in 0..MAX_TIER_C {
        let sym = SymbolId(i as u32);
        wl.add_candidate(sym, eviction_cycles, &mut metrics).unwrap();
        let ts = if i == 10 { 1 } else { (i + 100) as u64 };
        wl.touch(sym, ts);
    }

    let sym_new = SymbolId(9999);
    wl.add_candidate(sym_new, eviction_cycles, &mut metrics).unwrap();

    assert!(!wl.tier_c.contains_key(&SymbolId(10)));
    assert!(wl.tier_c.contains_key(&sym_new));
    assert_eq!(metrics.symbols_evicted, 1);
}

#[test]
fn watchlist_snapshot_counts_and_contexts() {
    let mut wl = Watchlist::new();
    let mut metrics = MetricsCollector::default();
    wl.add_candidate(SymbolId(1), 5, &mut metrics).unwrap();
    wl.add_candidate(SymbolId(2), 5, &mut metrics).unwrap();
    if let Some(d) = wl.get_data_mut(SymbolId(1)) {
        d.tick_count = 100;
    }
    wl.promote(SymbolId(1), &mut metrics).unwrap();
    let mut ctx_engine = ContextEngine::new(SymbolId(1), ContextParams::default());
    set_volume(&mut ctx_engine, 3_000_000, 1_000_000, true);
    let mtf = MtfEngine::new(SymbolId(1), MtfParams::default()).evaluate(5);
    wl.update_symbol_context(SymbolId(1), ctx_engine.compute_context(), mtf);
    wl.update_regime(RegimeState::Caution);
    let snap = wl.snapshot();
    assert_eq!(snap.tier_a_count, 0);
    assert_eq!(snap.tier_b_count, 1);
    assert_eq!(snap.tier_c_count, 1);
    assert_eq!(snap.total_subscriptions, 1);
    assert_eq!(snap.regime, RegimeState::Caution);
    assert!(snap.contexts.contains_key(&SymbolId(1)));
    assert!(!snap.contexts.contains_key(&SymbolId(2)));
    assert!(snap.mtf_results.contains_key(&SymbolId(1)));
    assert_eq!(metrics.symbols_promoted, 1);
}
