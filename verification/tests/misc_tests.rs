use penny_scalper::alerts::{Alert, AlertManager};
use penny_scalper::auth::{authorized, check_startup, strip_bearer, AuthQuery, StartupError};
use penny_scalper::calendar::{event_time, CalendarEvent, CalendarRisk};
use penny_scalper::calibration::CalibrationField;
use penny_scalper::config::ChannelConfig;
use penny_scalper::entry::{
    apply_fill, evaluate_entry, reduce_size, tape_threshold, update_cold_start, DayTradeTracker, EntryGates,
    FillKind, GuardQuote, HaltResume, HaltTracker, TapeThresholds,
};
use penny_scalper::events::{
    on_full_bus, route_event, validate_event, Event, EventKind, FullBusAction, HeartbeatMonitor,
    QosPriority, SnapshotData, TickData,
};
use penny_scalper::guards::{GuardConfig, GuardEvaluator};
use penny_scalper::latency::LatencyTracker;
use penny_scalper::metrics::{DecisionAction, DecisionLog, MetricsCollector};
use penny_scalper::replay::{count_matching, DecisionKey};
use penny_scalper::risk::{check_liquidity, LiquidityLimits};
use penny_scalper::types::{
    ColdStartState, ContextState, FillData, OrdKey, RegimeState, RejectReason, Side, SymbolId, Tier, KEY_ZERO,
};

fn fk(x: f64) -> OrdKey {
    OrdKey::from_bits(x.to_bits())
}

#[test]
fn test_predicted_slippage_zero_fails() {
    let result = CalibrationField::new_real(fk(0.0));
    assert!(result.is_err(), "Creating Real CalibrationField with 0.0 should return an error");
    assert_eq!(result.unwrap_err(), "predicted_slippage cannot be 0.0 for non-zero expected price");
}

#[test]
fn test_unavailable_empty_reason_fails() {
    let result = CalibrationField::new_unavailable("   ");
    assert!(result.is_err(), "Creating Unavailable CalibrationField with empty reason should return an error");
    assert_eq!(result.unwrap_err(), "Unavailable reason cannot be empty");
}

#[test]
fn calibration_fields_accept_real_values() {
    assert!(matches!(CalibrationField::new_real(fk(0.02)), Ok(CalibrationField::Real(k)) if k == fk(0.02)));
    assert!(CalibrationField::new_real(fk(-0.0)).is_err());
    match CalibrationField::new_unavailable(" no quote ") {
        Ok(CalibrationField::Unavailable(s)) => assert_eq!(s, " no quote "),
        _ => panic!("expected Unavailable"),
    }
    assert!(CalibrationField::new_unavailable("\t\n\u{3000}").is_err());
}

fn ready_gates() -> EntryGates {
    EntryGates {
        monitor_only: false,
        tier: Tier::A,
        risk_check: Ok(()),
        liquidity_check: Ok(()),
        regime: RegimeState::Normal,
        context: Some(ContextState::Play),
        mtf_pass: Some(true),
        anti_chase: false,
        is_reversal: false,
        cold_start: ColdStartState::FullActive,
        daily_target_reached: false,
        thresholds: TapeThresholds { normal: fk(72.0), post_target: fk(82.0), warm: fk(67.0) },
        tape_score: fk(80.0),
        expected_net: fk(1.0),
        min_net_profit: fk(0.0),
        exposure_ok: true,
    }
}

#[test]
fn test_tier_a_requirement() {
    // Valid tape: price 10.00, bid/ask 9.99/10.01, sizes 500/500, fully active;
    // no daily context yet, so the average daily volume is 0.
    let sym = SymbolId(1);
    let limits = LiquidityLimits::default();
    let liquidity = check_liquidity(&limits, fk(10.0), fk(0.02 / 10.0), 0, fk(0.0));
    let mut gates = ready_gates();
    gates.tier = Tier::C;
    gates.liquidity_check = liquidity;
    gates.context = None;
    gates.mtf_pass = None;
    let mut guards = GuardEvaluator::new(GuardConfig::default());
    assert_eq!(evaluate_entry(&gates, &mut guards, quote(sym, 1000, 0.02)), Err(RejectReason::Blocklist));
    gates.tier = Tier::A;
    assert_eq!(evaluate_entry(&gates, &mut guards, quote(sym, 1000, 0.02)), Err(RejectReason::Liquidity));
}

#[test]
fn liquidity_gate_bounds() {
    let l = LiquidityLimits::default();
    assert_eq!(check_liquidity(&l, fk(10.0), fk(0.01), 600_000, fk(6_000_000.0)), Ok(()));
    assert_eq!(check_liquidity(&l, fk(0.5), fk(0.01), 600_000, fk(300_000.0)), Err(RejectReason::PriceRange));
    assert_eq!(check_liquidity(&l, fk(25.0), fk(0.01), 600_000, fk(15_000_000.0)), Err(RejectReason::PriceRange));
    assert_eq!(check_liquidity(&l, fk(10.0), fk(0.06), 600_000, fk(6_000_000.0)), Err(RejectReason::Liquidity));
    assert_eq!(check_liquidity(&l, fk(10.0), fk(0.01), 499_999, fk(4_999_990.0)), Err(RejectReason::Liquidity));
    assert_eq!(check_liquidity(&l, fk(1.0), fk(0.01), 600_000, fk(600_000.0)), Err(RejectReason::Liquidity));
    assert_eq!(check_liquidity(&l, fk(20.0), fk(0.05), 500_000, fk(1_000_000.0)), Ok(()));
}

fn quote(symbol: SymbolId, ts: u64, spread: f64) -> GuardQuote {
    GuardQuote {
        symbol,
        timestamp: ts,
        data_timestamp: ts,
        spread: fk(spread),
        bid_size: 500,
        ask_size: 500,
        imbalance: fk(0.0),
        deviation: fk(0.0),
    }
}

#[test]
fn stress_luld_halt_new_entry_blocked() {
    // A halt of five minutes or more disables the symbol for the session:
    // every later tick finds it disabled, so no entry is ever evaluated.
    let mut halts = HaltTracker::new();
    let sym = SymbolId(1);
    halts.on_halt(sym, 1_000_000_000);
    assert_eq!(halts.on_tick(sym, 1_000_000_000 + 300 * 1_000_000), HaltResume::EmergencyExit);
    assert!(halts.is_disabled(sym));
    assert_eq!(halts.on_tick(sym, 2_000_000_000), HaltResume::NotHalted);
    assert!(halts.is_disabled(sym));
    assert!(true);
}

#[test]
fn short_halt_resumes() {
    let mut halts = HaltTracker::new();
    halts.on_halt(SymbolId(2), 10_000_000);
    assert_eq!(halts.on_tick(SymbolId(2), 10_000_000 + 299_999_999), HaltResume::Resumed);
    assert!(!halts.is_disabled(SymbolId(2)));
    assert_eq!(halts.on_tick(SymbolId(3), 5), HaltResume::NotHalted);
}

#[test]
fn entry_chain_each_gate_blocks() {
    let sym = SymbolId(1);
    let cases: Vec<(RejectReason, fn(&mut EntryGates))> = vec![
        (RejectReason::MonitorOnly, |g| g.monitor_only = true),
        (RejectReason::Blocklist, |g| g.tier = Tier::C),
        (RejectReason::PdtViolation, |g| g.risk_check = Err(RejectReason::PdtViolation)),
        (RejectReason::Liquidity, |g| g.liquidity_check = Err(RejectReason::Liquidity)),
        (RejectReason::PriceRange, |g| g.liquidity_check = Err(RejectReason::PriceRange)),
        (RejectReason::Regime, |g| g.regime = RegimeState::RiskOff),
        (RejectReason::DailyContext, |g| g.context = Some(ContextState::NoPlay)),
        (RejectReason::DailyContext, |g| g.context = None),
        (RejectReason::MtfVeto, |g| g.mtf_pass = Some(false)),
        (RejectReason::AntiChase, |g| g.anti_chase = true),
        (RejectReason::TapeReversal, |g| g.is_reversal = true),
        (RejectReason::TapeScoreLow, |g| g.cold_start = ColdStartState::ColdStart),
        (RejectReason::TapeScoreLow, |g| g.tape_score = fk(71.9)),
        (RejectReason::NetNegative, |g| g.expected_net = fk(0.0)),
        (RejectReason::Exposure, |g| g.exposure_ok = false),
    ];
    for (expected, setup) in cases {
        let mut gates = ready_gates();
        setup(&mut gates);
        let mut guards = GuardEvaluator::new(GuardConfig::default());
        assert_eq!(evaluate_entry(&gates, &mut guards, quote(sym, 1000, 0.02)), Err(expected));
    }
}

#[test]
fn entry_chain_happy_path() {
    let mut guards = GuardEvaluator::new(GuardConfig::default());
    assert_eq!(evaluate_entry(&ready_gates(), &mut guards, quote(SymbolId(1), 1000, 0.02)), Ok(()));
}

#[test]
fn entry_guards_run_only_after_earlier_gates() {
    let sym = SymbolId(1);
    let mut guards = GuardEvaluator::new(GuardConfig::default());
    let mut gates = ready_gates();
    gates.regime = RegimeState::Caution;
    // the wide spread is never looked at: no latch is set
    assert_eq!(evaluate_entry(&gates, &mut guards, quote(sym, 1000, 0.5)), Err(RejectReason::Regime));
    assert_eq!(evaluate_entry(&ready_gates(), &mut guards, quote(sym, 1100, 0.02)), Ok(()));
    // a guard failure latches the symbol
    assert_eq!(evaluate_entry(&ready_gates(), &mut guards, quote(sym, 1200, 0.5)), Err(RejectReason::GuardSpread));
    assert_eq!(evaluate_entry(&ready_gates(), &mut guards, quote(sym, 1300, 0.02)), Err(RejectReason::GuardSpread));
}

#[test]
fn thresholds_by_warm_up_stage() {
    let t = TapeThresholds { normal: fk(72.0), post_target: fk(82.0), warm: fk(67.0) };
    assert_eq!(tape_threshold(Tier::A, ColdStartState::WarmActive, false, t), Ok(fk(67.0)));
    assert_eq!(tape_threshold(Tier::A, ColdStartState::FullActive, true, t), Ok(fk(82.0)));
    assert_eq!(tape_threshold(Tier::A, ColdStartState::FullActive, false, t), Ok(fk(72.0)));
    assert_eq!(tape_threshold(Tier::A, ColdStartState::ColdStart, false, t), Err(RejectReason::TapeScoreLow));
    assert_eq!(tape_threshold(Tier::B, ColdStartState::FullActive, false, t), Err(RejectReason::Blocklist));
}

#[test]
fn cold_start_progression() {
    assert_eq!(update_cold_start(ColdStartState::ColdStart, 42, false), (ColdStartState::WarmActive, 0));
    assert_eq!(update_cold_start(ColdStartState::WarmActive, 98, false), (ColdStartState::WarmActive, 99));
    assert_eq!(update_cold_start(ColdStartState::WarmActive, 99, false), (ColdStartState::FullActive, 100));
    assert_eq!(update_cold_start(ColdStartState::ColdStart, 0, true), (ColdStartState::FullActive, 0));
}

#[test]
fn fills_move_positions() {
    let open = apply_fill(0, Side::Bid, 100);
    assert_eq!((open.new_position, open.closed_qty, open.kind), (100, 0, FillKind::Open));
    let add = apply_fill(100, Side::Bid, 50);
    assert_eq!((add.new_position, add.closed_qty, add.kind), (150, 0, FillKind::Add));
    let reduce = apply_fill(150, Side::Ask, 50);
    assert_eq!((reduce.new_position, reduce.closed_qty, reduce.kind), (100, 50, FillKind::Reduce));
    let close = apply_fill(100, Side::Ask, 100);
    assert_eq!((close.new_position, close.closed_qty, close.kind), (0, 100, FillKind::Close));
    let flip = apply_fill(-30, Side::Bid, 50);
    assert_eq!((flip.new_position, flip.closed_qty, flip.kind), (20, 30, FillKind::Flip));
}

#[test]
fn day_trades_need_same_day_buy_and_sell() {
    let mut t = DayTradeTracker::new();
    let day = 86_400u64 * 1_000_000;
    let hour = 3_600u64 * 1_000_000;
    // 15:00 UTC is 10:00 in New York in January 1970
    let morning = 5 * day + 15 * hour;
    assert_eq!(t.on_fill(SymbolId(1), Side::Ask, morning), None);
    assert_eq!(t.on_fill(SymbolId(1), Side::Bid, morning + 10), None);
    assert_eq!(t.on_fill(SymbolId(2), Side::Ask, morning + 20), None);
    assert_eq!(t.on_fill(SymbolId(1), Side::Ask, morning + 30), Some(5));
    // the buy was consumed
    assert_eq!(t.on_fill(SymbolId(1), Side::Ask, morning + 40), None);
    assert_eq!(t.on_fill(SymbolId(3), Side::Bid, morning), None);
    assert_eq!(t.on_fill(SymbolId(3), Side::Ask, morning + day), None);
}

#[test]
fn day_trades_follow_the_eastern_market_day() {
    let mut t = DayTradeTracker::new();
    let day = 86_400u64 * 1_000_000;
    let hour = 3_600u64 * 1_000_000;
    // bought at 17:00 ET, sold at 21:00 ET the same Eastern day, which is
    // already the next day in UTC
    assert_eq!(t.on_fill(SymbolId(1), Side::Bid, 5 * day + 22 * hour), None);
    assert_eq!(t.on_fill(SymbolId(1), Side::Ask, 6 * day + 2 * hour), Some(5));
}

#[test]
fn size_reductions() {
    assert_eq!(reduce_size(100, false, false), 100);
    assert_eq!(reduce_size(100, true, false), 50);
    assert_eq!(reduce_size(100, true, true), 12);
    assert_eq!(reduce_size(1, true, true), 1);
    assert_eq!(reduce_size(0, false, true), 1);
}

fn tick_event(ts: u64, price: f64, size: u32) -> Event {
    Event {
        ts_src: ts,
        ts_rx: ts,
        ts_proc: ts,
        seq: 0,
        symbol_id: SymbolId(42),
        kind: EventKind::Tick(TickData { price: fk(price), size, flags: 0 }),
    }
}

#[test]
fn event_admission() {
    let now = 1_672_531_200_000_000;
    assert!(validate_event(&tick_event(now, 15.5, 100), now));
    assert!(!validate_event(&tick_event(now, 0.0, 100), now));
    assert!(!validate_event(&tick_event(now, 100_000.0, 100), now));
    assert!(!validate_event(&tick_event(now, 15.5, 0), now));
    assert!(!validate_event(&tick_event(0, 15.5, 100), now));
    assert!(validate_event(&tick_event(now + 5_000_000, 15.5, 100), now));
    assert!(!validate_event(&tick_event(now + 5_000_001, 15.5, 100), now));
    assert!(validate_event(&tick_event(now - 5_000_000, 15.5, 100), now));
    assert!(!validate_event(&tick_event(now - 5_000_001, 15.5, 100), now));
    let mut unnamed = tick_event(now, 15.5, 100);
    unnamed.symbol_id = SymbolId(0);
    assert!(!validate_event(&unnamed, now));
    assert!(!validate_event(&tick_event(253402300799000000, 15.5, 100), now));
    let crossed = Event {
        ts_src: now,
        ts_rx: now,
        ts_proc: now,
        seq: 1,
        symbol_id: SymbolId(1),
        kind: EventKind::Snapshot(SnapshotData {
            bid_price: fk(2.0),
            ask_price: fk(2.0),
            bid_size: 1,
            ask_size: 1,
            volume: 1,
            avg_volume_20d: 1,
            has_news_today: false,
        }),
    };
    assert!(!validate_event(&crossed, now));
}

#[test]
fn routing_and_priorities() {
    let fill = Event {
        ts_src: 1,
        ts_rx: 1,
        ts_proc: 1,
        seq: 0,
        symbol_id: SymbolId(1),
        kind: EventKind::Fill(FillData { order_id: 1, price: fk(2.0), size: 10, side: Side::Bid, liquidity: 0 }),
    };
    assert_eq!(QosPriority::from_event(&fill), QosPriority::Critical);
    let r = route_event(&fill.kind);
    assert!(r.metrics && r.oms && r.risk && r.fast_loop && !r.slow_loop);
    let tick = tick_event(1, 2.0, 1);
    assert_eq!(QosPriority::from_event(&tick), QosPriority::High);
    let r = route_event(&tick.kind);
    assert!(r.fast_loop && r.slow_loop && !r.oms && !r.risk);
    let hb = route_event(&EventKind::Heartbeat);
    assert!(hb.risk && hb.metrics && !hb.oms && !hb.fast_loop);
    assert_eq!(on_full_bus(QosPriority::Critical), FullBusAction::Wait);
    assert_eq!(on_full_bus(QosPriority::High), FullBusAction::Drop);
    assert_eq!(on_full_bus(QosPriority::Low), FullBusAction::Drop);
}

#[test]
fn heartbeat_supervision() {
    let mut m = HeartbeatMonitor::new();
    assert!(!m.check(false));
    assert!(m.check(true));
    assert!(!m.check(true));
    assert!(m.is_degraded);
    assert!(m.on_heartbeat());
    assert!(!m.is_degraded);
    assert!(!m.on_heartbeat());
}

#[test]
fn latency_p95_and_sla() {
    let mut t = LatencyTracker::new(100);
    for v in 1..=100u64 {
        t.record(v);
    }
    // the first query computes: floor(100 * 0.95) = index 95 of the sorted window
    assert_eq!(t.p95(), 96);
    t.record(1_000_000);
    // cached for the next 99 queries
    assert_eq!(t.p95(), 96);
    let mut slow = LatencyTracker::new(10);
    for _ in 0..10 {
        slow.record(30_000);
    }
    assert!(!slow.check_sla_hard_fail(0));
    assert!(slow.consecutive_breach_start.is_some());
    assert!(!slow.check_sla_hard_fail(4_999_999));
    assert!(!slow.check_sla_hard_fail(5_000_000));
    assert!(slow.check_sla_hard_fail(5_000_001));
    assert!(slow.hard_fail_triggered);
}

#[test]
fn latency_empty_window_is_zero() {
    let mut t = LatencyTracker::new(3);
    assert_eq!(t.p95(), 0);
    t.record(7);
    t.record(9);
    t.record(8);
    t.record(1);
    for _ in 0..99 {
        assert_eq!(t.p95(), 0);
    }
    assert_eq!(t.p95(), 9);
}

#[test]
fn alerts_keep_the_most_recent() {
    let mut m = AlertManager::new(2);
    m.raise(Alert::DataApiDown);
    m.raise(Alert::LossLadderActivated { level: 1 });
    m.raise(Alert::HeartbeatMissing { duration_secs: 3 });
    assert_eq!(m.alerts.len(), 2);
    let recent = m.recent(5);
    assert_eq!(recent, vec![&Alert::HeartbeatMissing { duration_secs: 3 }, &Alert::LossLadderActivated { level: 1 }]);
    assert_eq!(m.recent(1).len(), 1);
}

#[test]
fn metrics_count_decisions() {
    let mut m = MetricsCollector::default();
    let log = DecisionLog::new_reject(SymbolId(1), 5, RejectReason::GuardSpread);
    m.record_decision(&log);
    m.record_decision(&log);
    let mut enter = DecisionLog::new_reject(SymbolId(1), 6, RejectReason::Unknown);
    enter.action = DecisionAction::Enter;
    enter.reject_reason = None;
    m.record_decision(&enter);
    assert_eq!(m.total_decisions, 3);
    assert_eq!(m.total_entries, 1);
    assert_eq!(RejectReason::GuardSpread.code(), 8);
}

#[test]
fn dashboard_access() {
    assert_eq!(strip_bearer("Bearer abc"), "abc");
    assert_eq!(strip_bearer("Bearer Bearer x"), "x");
    assert_eq!(strip_bearer("Token abc"), "Token abc");
    assert!(authorized(AuthQuery { token: Some("s3cret".to_string()) }, None, "s3cret"));
    assert!(!authorized(AuthQuery { token: Some("wrong".to_string()) }, Some("Bearer s3cret"), "s3cret"));
    assert!(authorized(AuthQuery { token: None }, Some("Bearer s3cret"), "s3cret"));
    assert!(!authorized(AuthQuery { token: None }, None, "s3cret"));
    assert_eq!(check_startup("127.0.0.1:8080", false, "tok"), Ok(()));
    assert_eq!(check_startup("0.0.0.0:8080", false, "tok"), Err(StartupError::InsecureRemote));
    assert_eq!(check_startup("0.0.0.0:8080", true, "tok"), Ok(()));
    assert_eq!(check_startup("localhost:1", false, "  "), Err(StartupError::MissingToken));
}

#[test]
fn calendar_windows() {
    assert_eq!(event_time("NFP"), 30600);
    assert_eq!(event_time("FOMC Minutes"), 50400);
    assert_eq!(event_time("OPEC"), 32400);
    assert_eq!(event_time("Other"), 34200);
    let mut cal = CalendarRisk::new("calendar.toml".to_string());
    let now = 1_718_000_000_000_000u64;
    // never loaded, so no update date: stale, and calendar risk is on
    assert!(cal.is_active(now, now));
    cal.apply_loaded(
        vec![CalendarEvent {
            date: "2024-06-12".to_string(),
            event: "CPI".to_string(),
            window_before_min: 30,
            window_after_min: 60,
        }],
        Some("2024-06-10".to_string()),
        now,
    );
    // 2024-06-12 12:15 UTC = 08:15 EDT: inside 08:00-09:30
    assert!(cal.is_active(1_718_194_500_000_000, now));
    // 2024-06-12 14:00 UTC = 10:00 EDT: outside
    assert!(!cal.is_active(1_718_200_800_000_000, now));
    // another day
    assert!(!cal.is_active(1_718_108_100_000_000, now));
    // 2024-06-17 10:00 EDT: seven days after the update date, still fresh
    assert!(!cal.is_active(1_718_200_800_000_000 + 5 * 86_400 * 1_000_000, now));
    // 2024-06-18 10:00 EDT: eight days after the update date, stale all day
    assert!(cal.is_active(1_718_200_800_000_000 + 6 * 86_400 * 1_000_000, now));
    // a recent load does not freshen an old update date
    cal.apply_loaded(Vec::new(), Some("2024-06-01".to_string()), now);
    assert!(cal.is_active(1_718_200_800_000_000, now));
    // an update date that does not parse counts as stale
    cal.apply_loaded(Vec::new(), Some("June".to_string()), now);
    assert!(cal.is_active(1_718_200_800_000_000, now));
}

#[test]
fn replay_comparison_counts_agreement() {
    let d = |ts: u64, action: &str, reason: Option<&str>| DecisionKey {
        ts_src: ts,
        action: action.to_string(),
        reject_reason: reason.map(|r| r.to_string()),
    };
    let a = vec![d(1, "ENTER", None), d(2, "REJECT", Some("Regime")), d(3, "REJECT", Some("MtfVeto"))];
    let b = vec![d(1, "ENTER", None), d(2, "REJECT", Some("GuardSpread")), d(3, "REJECT", Some("MtfVeto"))];
    assert_eq!(count_matching(&a, &b), 2);
    assert_eq!(count_matching(&a, &a), 3);
    assert_eq!(count_matching(&a, &vec![]), 0);
}

#[test]
fn channel_defaults() {
    let c = ChannelConfig::default();
    assert_eq!((c.bridge_rx_size, c.fast_loop_size, c.slow_loop_size), (4096, 16384, 8192));
    assert_eq!((c.oms_size, c.metrics_size, c.risk_size), (1024, 8192, 1024));
    assert_eq!(OrdKey::zero().0, KEY_ZERO);
}
