use chrono::{TimeZone, Utc};
use penny_scalper::blocklist::{str_le, Blocklist, BlocklistEntry};
use penny_scalper::datetime::market_day_boundary;
use penny_scalper::exposure::ExposureValidator;
use penny_scalper::guards::{GuardConfig, GuardEvaluator};
use penny_scalper::pdt::PdtGuard;
use penny_scalper::risk::RiskState;
use penny_scalper::session::{session_at_seconds, SessionGuard, SessionState};
use penny_scalper::types::{CorporateAction, OrdKey, RejectReason, SymbolId};

fn k(x: f64) -> OrdKey {
    OrdKey::from_bits(x.to_bits())
}

/// Runs the guards on a quote, deriving the spread, imbalance and deviation
/// the way the fast loop does.
fn check(
    ev: &mut GuardEvaluator,
    symbol: SymbolId,
    now: u64,
    data_ts: u64,
    bid: f64,
    ask: f64,
    bid_size: u32,
    ask_size: u32,
    last: f64,
) -> Result<(), RejectReason> {
    let spread = ask - bid;
    let total = bid_size + ask_size;
    let imbalance = if total > 0 {
        (bid_size as f64 - ask_size as f64).abs() / total as f64
    } else {
        0.0
    };
    let deviation = ((bid + ask) / 2.0 - last).abs();
    ev.check_execution(symbol, now, data_ts, k(spread), bid_size, ask_size, k(imbalance), k(deviation))
}

#[test]
fn test_pdt_counting() {
    let mut guard = PdtGuard::new(3);
    let today = 100;

    guard.record_day_trade(today - 4, 1);
    assert_eq!(guard.day_trade_count_last_5_days(today), 1);
    assert!(!guard.would_violate(today));

    guard.record_day_trade(today - 3, 2);
    assert_eq!(guard.day_trade_count_last_5_days(today), 2);
    assert!(!guard.would_violate(today));

    guard.record_day_trade(today - 2, 3);
    assert_eq!(guard.day_trade_count_last_5_days(today), 3);
    assert!(guard.would_violate(today));

    guard.record_day_trade(today - 1, 4);
    assert_eq!(guard.day_trade_count_last_5_days(today), 4);
}

#[test]
fn test_pdt_expiry() {
    let mut guard = PdtGuard::new(3);
    let today = 100;

    guard.record_day_trade(today - 6, 1);
    assert_eq!(guard.day_trade_count_last_5_days(today), 0);

    guard.record_day_trade(today - 5, 2);
    assert_eq!(guard.day_trade_count_last_5_days(today), 0);

    guard.record_day_trade(today - 4, 3);
    assert_eq!(guard.day_trade_count_last_5_days(today), 1);
}

#[test]
fn test_pdt_5_day_rolling_window_in_et() {
    let mut guard = PdtGuard::new(3);

    let dt1 = Utc.with_ymd_and_hms(2024, 6, 10, 0, 1, 0).unwrap();
    let ord1 = market_day_boundary(dt1.timestamp() as u64 * 1_000_000);
    guard.record_day_trade(ord1, 1);

    let dt2 = Utc.with_ymd_and_hms(2024, 6, 11, 23, 59, 0).unwrap();
    let ord2 = market_day_boundary(dt2.timestamp() as u64 * 1_000_000);
    guard.record_day_trade(ord2, 2);

    let dt3 = Utc.with_ymd_and_hms(2024, 6, 12, 14, 0, 0).unwrap();
    let ord3 = market_day_boundary(dt3.timestamp() as u64 * 1_000_000);
    guard.record_day_trade(ord3, 3);

    let dt_eval = Utc.with_ymd_and_hms(2024, 6, 14, 14, 0, 0).unwrap();
    let ord_eval = market_day_boundary(dt_eval.timestamp() as u64 * 1_000_000);

    assert_eq!(guard.day_trade_count_last_5_days(ord_eval), 2);
    assert!(!guard.would_violate(ord_eval));
}

#[test]
fn pdt_recording_a_day_counts_it_once() {
    let mut guard = PdtGuard::new(2);
    guard.record_day_trade(10, 1);
    guard.record_day_trade(20, 2);
    // the day-10 trade is out of the window of day 20 and is forgotten
    assert_eq!(guard.day_trade_count_last_5_days(20), 1);
    assert_eq!(guard.day_trade_count_last_5_days(10), 1);
    assert!(!guard.would_violate(20));
    guard.record_day_trade(20, 3);
    assert!(guard.would_violate(20));
}

#[test]
fn pdt_default_allows_three() {
    let mut guard = PdtGuard::default();
    for s in 0..3 {
        assert!(!guard.would_violate(7));
        guard.record_day_trade(7, s);
    }
    assert!(guard.would_violate(7));
}

#[test]
fn test_session_states() {
    let guard = SessionGuard::new(false);
    let ts_trading = 1741615200_u64 * 1_000_000;
    assert_eq!(guard.session_state(ts_trading), SessionState::TradingHours);
    assert!(guard.entry_allowed(ts_trading));

    let ts_open_vol = 1741613700_u64 * 1_000_000;
    assert_eq!(guard.session_state(ts_open_vol), SessionState::OpenVolatility);
    assert!(!guard.entry_allowed(ts_open_vol));
}

#[test]
fn session_boundaries() {
    assert_eq!(session_at_seconds(14_399), SessionState::Closed);
    assert_eq!(session_at_seconds(14_400), SessionState::PreMarket);
    assert_eq!(session_at_seconds(34_200), SessionState::OpenVolatility);
    assert_eq!(session_at_seconds(35_100), SessionState::TradingHours);
    assert_eq!(session_at_seconds(56_700), SessionState::CloseVolatility);
    assert_eq!(session_at_seconds(57_600), SessionState::AfterHours);
    assert_eq!(session_at_seconds(72_000), SessionState::Closed);
    let strict = SessionGuard::new(false);
    let relaxed = SessionGuard::new(true);
    assert!(!strict.entry_allowed_in(SessionState::PreMarket));
    assert!(relaxed.entry_allowed_in(SessionState::AfterHours));
    assert!(!relaxed.entry_allowed_in(SessionState::CloseVolatility));
    // 2025-03-10 18:00 ET (22:00 UTC) is after hours
    let ts_after = 1741644000_u64 * 1_000_000;
    assert!(!strict.entry_allowed(ts_after));
    assert!(relaxed.entry_allowed(ts_after));
}

#[test]
fn blocklist_auto_block_blocks_registered_symbol() {
    let mut bl = Blocklist::new("dummy.toml".to_string(), 60);
    bl.register_symbol("XYZ".to_string(), SymbolId(10));
    assert!(!bl.is_blocked(SymbolId(10)));
    bl.auto_block("XYZ".to_string(), "Delisting".to_string());
    assert!(bl.is_blocked(SymbolId(10)));
    assert!(!bl.is_blocked(SymbolId(11)));
}

#[test]
fn blocklist_load_drops_expired_entries() {
    let mut bl = Blocklist::new("dummy.toml".to_string(), 60);
    bl.register_symbol("AAA".to_string(), SymbolId(1));
    bl.register_symbol("BBB".to_string(), SymbolId(2));
    bl.register_symbol("CCC".to_string(), SymbolId(3));
    let entry = |sym: &str, expiry: Option<&str>| BlocklistEntry {
        symbol: sym.to_string(),
        reason: "test".to_string(),
        date_added: "2024-01-01".to_string(),
        expiry: expiry.map(|e| e.to_string()),
        auto_added: false,
    };
    bl.apply_loaded(
        vec![entry("AAA", None), entry("BBB", Some("2024-06-10")), entry("CCC", Some("2024-06-11"))],
        "2024-06-10",
        5_000_000,
    );
    assert!(bl.is_blocked(SymbolId(1)));
    assert!(!bl.is_blocked(SymbolId(2)));
    assert!(bl.is_blocked(SymbolId(3)));
    // a ticker registered after the load is blocked at once
    bl.register_symbol("AAA".to_string(), SymbolId(9));
    assert!(bl.is_blocked(SymbolId(9)));
}

#[test]
fn blocklist_reload_timing() {
    let mut bl = Blocklist::new("dummy.toml".to_string(), 60);
    // never loaded: the interval since the epoch has long passed
    assert!(bl.reload_if_needed(1_700_000_000_000_000));
    assert!(!bl.reload_if_needed(59_999_999));
    bl.mark_loaded(100_000_000);
    assert!(!bl.reload_if_needed(100_000_000 + 59_999_999));
    assert!(bl.reload_if_needed(160_000_000));
    assert!(bl.reload_if_needed(99_000_000));
}

#[test]
fn text_order_is_lexicographic() {
    assert!(str_le("2024-06-09", "2024-06-10"));
    assert!(str_le("2024-06-10", "2024-06-10"));
    assert!(!str_le("2024-06-11", "2024-06-10"));
    assert!(str_le("", "a"));
    assert!(str_le("ab", "abc"));
    assert!(!str_le("abc", "ab"));
}

#[test]
fn test_corporate_action_block() {
    let mut risk = RiskState::new(k(1000.0));
    let symbol = SymbolId(1);

    assert!(risk.check_entry(symbol).is_ok());

    risk.set_corporate_action(symbol, CorporateAction::Watch);
    assert!(risk.check_entry(symbol).is_ok());
    assert!(!risk.blocklist.contains(&symbol));

    risk.set_corporate_action(symbol, CorporateAction::Block);
    assert!(risk.blocklist.contains(&symbol));

    match risk.check_entry(symbol) {
        Err(RejectReason::CorporateActionBlock) => (),
        _ => panic!("Expected CorporateActionBlock"),
    }
}

#[test]
fn test_manual_block() {
    let mut risk = RiskState::new(k(1000.0));
    let symbol = SymbolId(2);

    risk.block_symbol(symbol);
    match risk.check_entry(symbol) {
        Err(RejectReason::Blocklist) => (),
        _ => panic!("Expected Blocklist"),
    }
}

#[test]
fn risk_daily_loss_stop_and_unblock() {
    let mut risk = RiskState::new(k(1000.0));
    let symbol = SymbolId(3);
    risk.daily_loss_usd = k(-999.99);
    assert_eq!(risk.check_entry(symbol), Ok(()));
    risk.daily_loss_usd = k(-1000.0);
    assert_eq!(risk.check_entry(symbol), Err(RejectReason::DailyContext));
    risk.daily_loss_usd = k(0.0);
    risk.block_symbol(symbol);
    assert_eq!(risk.check_entry(symbol), Err(RejectReason::Blocklist));
    risk.unblock_symbol(symbol);
    assert_eq!(risk.check_entry(symbol), Ok(()));
}

#[test]
fn test_single_position_default() {
    let validator = ExposureValidator::new();
    let sym1 = SymbolId(1);
    assert!(validator.check_new_position(sym1, &[]).is_ok());
}

#[test]
fn test_max_2_strict() {
    let validator = ExposureValidator::new();
    let sym1 = SymbolId(1);
    let sym2 = SymbolId(2);
    let sym3 = SymbolId(3);
    assert_eq!(validator.check_new_position(sym3, &[sym1, sym2]), Err(RejectReason::Exposure));
}

#[test]
fn test_sector_restriction() {
    let mut validator = ExposureValidator::new();
    let sym1 = SymbolId(1);
    let sym2 = SymbolId(2);
    let sym3 = SymbolId(3);

    validator.set_sector(sym1, "Tech".to_string());
    validator.set_sector(sym2, "Tech".to_string());
    validator.set_sector(sym3, "Energy".to_string());

    validator.set_correlation(sym1, sym2, k(0.1));
    assert_eq!(validator.check_new_position(sym2, &[sym1]), Err(RejectReason::Exposure));

    validator.set_correlation(sym1, sym3, k(0.1));
    assert!(validator.check_new_position(sym3, &[sym1]).is_ok());
}

#[test]
fn test_correlation_restriction() {
    let mut validator = ExposureValidator::new();
    let sym1 = SymbolId(1);
    let sym2 = SymbolId(2);

    validator.set_sector(sym1, "Tech".to_string());
    validator.set_sector(sym2, "Energy".to_string());

    validator.set_correlation(sym1, sym2, k(0.8));
    assert_eq!(validator.check_new_position(sym2, &[sym1]), Err(RejectReason::Exposure));

    validator.set_correlation(sym1, sym2, k(0.4));
    assert!(validator.check_new_position(sym2, &[sym1]).is_ok());

    let sym3 = SymbolId(3);
    validator.set_sector(sym3, "Energy".to_string());
    assert_eq!(validator.check_new_position(sym3, &[sym1]), Err(RejectReason::Exposure));
}

#[test]
fn exposure_correlation_is_symmetric_and_boundary_rejects() {
    let mut validator = ExposureValidator::new();
    validator.set_sector(SymbolId(5), "Tech".to_string());
    validator.set_sector(SymbolId(9), "Energy".to_string());
    validator.set_correlation(SymbolId(9), SymbolId(5), k(0.5));
    assert_eq!(validator.check_new_position(SymbolId(5), &[SymbolId(9)]), Err(RejectReason::Exposure));
    validator.set_correlation(SymbolId(5), SymbolId(9), k(-0.9));
    assert_eq!(validator.check_new_position(SymbolId(9), &[SymbolId(5)]), Ok(()));
    // no sector for the candidate
    assert_eq!(validator.check_new_position(SymbolId(7), &[SymbolId(5)]), Err(RejectReason::Exposure));
}

#[test]
fn test_spread_guard() {
    let mut evaluator = GuardEvaluator::new(GuardConfig::default());
    let symbol = SymbolId(1);
    let now = 1000;
    let data_ts = now;

    assert!(check(&mut evaluator, symbol, now, data_ts, 10.00, 10.04, 500, 500, 10.02).is_ok());

    match check(&mut evaluator, symbol, now, data_ts, 10.00, 10.06, 500, 500, 10.03) {
        Err(RejectReason::GuardSpread) => (),
        _ => panic!("Expected GuardSpread"),
    }
}

#[test]
fn test_ttl_hysteresis() {
    let mut evaluator = GuardEvaluator::new(GuardConfig::default());
    let symbol = SymbolId(1);
    let mut now = 1000;
    let mut data_ts = now;

    let _ = check(&mut evaluator, symbol, now, data_ts, 10.00, 10.06, 500, 500, 10.03);

    now += 100;
    data_ts = now;
    match check(&mut evaluator, symbol, now, data_ts, 10.00, 10.04, 500, 500, 10.02) {
        Err(RejectReason::GuardSpread) => (),
        _ => panic!("Expected GuardSpread persistence"),
    }

    now += 2000;
    data_ts = now;
    assert!(check(&mut evaluator, symbol, now, data_ts, 10.00, 10.04, 500, 500, 10.02).is_ok());
}

#[test]
fn test_imbalance_guard() {
    let mut evaluator = GuardEvaluator::new(GuardConfig::default());
    let symbol = SymbolId(2);
    let now = 1000;
    let data_ts = now;

    assert!(check(&mut evaluator, symbol, now, data_ts, 10.00, 10.01, 500, 500, 10.005).is_ok());

    match check(&mut evaluator, symbol, now, data_ts, 10.00, 10.01, 900, 100, 10.005) {
        Err(RejectReason::GuardImbalance) => (),
        _ => panic!("Expected GuardImbalance"),
    }
}

#[test]
fn test_l2_vacuum() {
    let mut evaluator = GuardEvaluator::new(GuardConfig::default());
    let symbol = SymbolId(3);
    let now = 1000;
    let data_ts = now;

    assert!(check(&mut evaluator, symbol, now, data_ts, 10.00, 10.01, 100, 100, 10.005).is_ok());

    match check(&mut evaluator, symbol, now, data_ts, 10.00, 10.01, 50, 50, 10.005) {
        Err(RejectReason::GuardL2Vacuum) => (),
        _ => panic!("Expected GuardL2Vacuum"),
    }
}

#[test]
fn test_slippage_guard() {
    let mut evaluator = GuardEvaluator::new(GuardConfig::default());
    let symbol = SymbolId(4);
    let now = 1000;
    let data_ts = now;

    assert!(check(&mut evaluator, symbol, now, data_ts, 10.00, 10.01, 500, 500, 10.005).is_ok());

    match check(&mut evaluator, symbol, now, data_ts, 10.00, 10.01, 500, 500, 10.10) {
        Err(RejectReason::GuardSlippage) => (),
        _ => panic!("Expected GuardSlippage"),
    }
}

#[test]
fn test_flicker_guard() {
    let mut config = GuardConfig::default();
    config.max_flicker_count = 3;
    config.flicker_window_ms = 100;
    let mut evaluator = GuardEvaluator::new(config);
    let symbol = SymbolId(5);
    let mut now = 1000;

    assert!(evaluator.track_event(symbol, now).is_ok());
    now += 10;
    assert!(evaluator.track_event(symbol, now).is_ok());
    now += 10;
    assert!(evaluator.track_event(symbol, now).is_ok());

    now += 10;
    match evaluator.track_event(symbol, now) {
        Err(RejectReason::GuardFlicker) => (),
        _ => panic!("Expected GuardFlicker"),
    }

    match check(&mut evaluator, symbol, now, now, 10.0, 10.04, 100, 100, 10.02) {
        Err(RejectReason::GuardFlicker) => (),
        _ => panic!("Expected GuardFlicker persistence in check_execution"),
    }
}

#[test]
fn test_stale_guard() {
    let mut config = GuardConfig::default();
    config.max_staleness_ms = 1000;
    let mut evaluator = GuardEvaluator::new(config);
    let symbol = SymbolId(6);
    let now = 2000;

    let data_ts = 1500;
    assert!(check(&mut evaluator, symbol, now, data_ts, 10.0, 10.04, 100, 100, 10.02).is_ok());

    let data_ts_old = 500;
    match check(&mut evaluator, symbol, now, data_ts_old, 10.0, 10.04, 100, 100, 10.02) {
        Err(RejectReason::GuardStale) => (),
        _ => panic!("Expected GuardStale"),
    }
}

#[test]
fn guard_zero_spread_and_spread_order() {
    let mut evaluator = GuardEvaluator::new(GuardConfig::default());
    // a crossed or locked book is a spread failure, checked before liquidity
    assert_eq!(
        check(&mut evaluator, SymbolId(8), 1000, 1000, 10.0, 10.0, 1, 1, 10.0),
        Err(RejectReason::GuardSpread)
    );
    // other symbols are not latched
    assert!(check(&mut evaluator, SymbolId(9), 1000, 1000, 10.0, 10.01, 500, 500, 10.005).is_ok());
}

#[test]
fn flicker_window_expires() {
    let mut config = GuardConfig::default();
    config.max_flicker_count = 2;
    config.flicker_window_ms = 100;
    config.ttl_ms = 50;
    let mut evaluator = GuardEvaluator::new(config);
    let s = SymbolId(1);
    assert!(evaluator.track_event(s, 1000).is_ok());
    assert!(evaluator.track_event(s, 1050).is_ok());
    assert_eq!(evaluator.track_event(s, 1060), Err(RejectReason::GuardFlicker));
    // past the latch and the window, updates are accepted again
    assert!(evaluator.track_event(s, 1300).is_ok());
}
