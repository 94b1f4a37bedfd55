use vstd::prelude::*;
use crate::types::{ColdStartState, OrdKey, RegimeState, RejectReason, SymbolId, KEY_ZERO};

verus! {

impl Default for MetricsCollector {
    /// All counters zero.
    fn default() -> (r: Self)
        ensures
            r.wf(),
            forall|c: u8| r.rejects(c) == 0,
            r.total_decisions == 0,
            r.total_entries == 0,
            r.symbols_promoted == 0,
            r.symbols_demoted == 0,
            r.symbols_evicted == 0,
    {
        MetricsCollector::new()
    }
}

/// Latency limit of the decision path, in microseconds.
pub const SLA_LIMIT_MICROS: u64 = 10_000;

#[derive(Clone, Copy, Debug, PartialEq, Eq, Structural)]
pub enum DecisionAction {
    Enter,
    Reject,
}

impl DecisionAction {
    /// The action's display text: `Enter` or `Reject`.
    pub fn text(self) -> (t: &'static str)
        ensures
            t@ == (if self == DecisionAction::Enter { "Enter"@ } else { "Reject"@ }),
    {
        proof {
            reveal_strlit("Enter");
            reveal_strlit("Reject");
        }
        match self {
            DecisionAction::Enter => "Enter",
            DecisionAction::Reject => "Reject",
        }
    }
}

/// The wire code of a reject reason.
pub open spec fn spec_reason_code(r: RejectReason) -> u8 {
    match r {
        RejectReason::Blocklist => 0,
        RejectReason::CorporateActionBlock => 1,
        RejectReason::PriceRange => 2,
        RejectReason::Liquidity => 3,
        RejectReason::Regime => 4,
        RejectReason::DailyContext => 5,
        RejectReason::MtfVeto => 6,
        RejectReason::AntiChase => 7,
        RejectReason::GuardSpread => 8,
        RejectReason::GuardImbalance => 9,
        RejectReason::GuardStale => 10,
        RejectReason::GuardSlippage => 11,
        RejectReason::GuardL2Vacuum => 12,
        RejectReason::GuardFlicker => 13,
        RejectReason::TapeScoreLow => 14,
        RejectReason::NetNegative => 15,
        RejectReason::Exposure => 16,
        RejectReason::TapeReversal => 17,
        RejectReason::MonitorOnly => 18,
        RejectReason::MaxDailyLoss => 19,
        RejectReason::PdtViolation => 20,
        RejectReason::Unknown => 255,
    }
}

impl RejectReason {
    /// The wire code of this reason.
    pub fn code(self) -> (r: u8)
        ensures
            r == spec_reason_code(self),
    {
        match self {
            RejectReason::Blocklist => 0,
            RejectReason::CorporateActionBlock => 1,
            RejectReason::PriceRange => 2,
            RejectReason::Liquidity => 3,
            RejectReason::Regime => 4,
            RejectReason::DailyContext => 5,
            RejectReason::MtfVeto => 6,
            RejectReason::AntiChase => 7,
            RejectReason::GuardSpread => 8,
            RejectReason::GuardImbalance => 9,
            RejectReason::GuardStale => 10,
            RejectReason::GuardSlippage => 11,
            RejectReason::GuardL2Vacuum => 12,
            RejectReason::GuardFlicker => 13,
            RejectReason::TapeScoreLow => 14,
            RejectReason::NetNegative => 15,
            RejectReason::Exposure => 16,
            RejectReason::TapeReversal => 17,
            RejectReason::MonitorOnly => 18,
            RejectReason::MaxDailyLoss => 19,
            RejectReason::PdtViolation => 20,
            RejectReason::Unknown => 255,
        }
    }
}

/// Why a trade was closed.
#[derive(Clone, Copy, Debug, PartialEq, Eq, Structural)]
pub enum ExitReason {
    /// Profit target reached.
    Target,
    /// Server-side stop triggered.
    Stop,
    Manual,
    /// Emergency exit after a limit-up/limit-down halt.
    LuldHalt,
    /// Regime turned Risk-Off.
    RegimeChange,
    /// Tape reversed with the spread widening.
    TapeReversal,
    SessionClose,
    Unknown,
}

/// What a losing trade is attributed to.
#[derive(Clone, Copy, Debug, PartialEq, Eq, Structural)]
pub enum LossAttributionCode {
    /// Wrong signal or threshold.
    EntryModel,
    /// Daily or timeframe filter failure.
    Context,
    /// Spread, depth or volatility.
    Guards,
    /// Slippage, delay or partial fills.
    Execution,
    /// Stop, ladder or kill switch.
    Risk,
    /// Degraded or missing data.
    Data,
}

/// Operational counters.
#[derive(Debug)]
pub struct MetricsCollector {
    /// (reject code, count) pairs, one per code seen.
    pub reject_counts: Vec<(u8, u64)>,
    pub total_decisions: u64,
    pub total_entries: u64,
    pub api_error_count: u64,
    pub reconnect_count: u64,
    pub data_quality_events: u64,
    pub ibkr_subscription_count: u32,
    pub sla_breach_count: u64,
    pub symbols_promoted: u64,
    pub symbols_demoted: u64,
    pub symbols_evicted: u64,
    pub cold_symbol_count: u64,
    pub current_count: u64,
    pub budget: u64,
}

/// The count recorded for `code` in a list of (code, count) pairs.
pub open spec fn count_of(s: Seq<(u8, u64)>, code: u8) -> u64
    decreases s.len(),
{
    if s.len() == 0 {
        0
    } else if s.last().0 == code {
        s.last().1
    } else {
        count_of(s.drop_last(), code)
    }
}

pub open spec fn distinct_codes(s: Seq<(u8, u64)>) -> bool {
    forall|i: int, j: int| 0 <= i < j < s.len() ==> s[i].0 != s[j].0
}

proof fn lemma_count_at(s: Seq<(u8, u64)>, i: int)
    requires
        distinct_codes(s),
        0 <= i < s.len(),
    ensures
        count_of(s, s[i].0) == s[i].1,
    decreases s.len(),
{
    if i < s.len() - 1 {
        lemma_count_at(s.drop_last(), i);
        assert(s.drop_last()[i] == s[i]);
    }
}

proof fn lemma_count_absent(s: Seq<(u8, u64)>, code: u8)
    requires
        forall|j: int| 0 <= j < s.len() ==> s[j].0 != code,
    ensures
        count_of(s, code) == 0,
    decreases s.len(),
{
    if s.len() > 0 {
        lemma_count_absent(s.drop_last(), code);
    }
}

proof fn lemma_count_update(s: Seq<(u8, u64)>, i: int, v: u64, code: u8)
    requires
        distinct_codes(s),
        0 <= i < s.len(),
    ensures
        count_of(s.update(i, (s[i].0, v)), code) == (if code == s[i].0 { v } else { count_of(s, code) }),
        distinct_codes(s.update(i, (s[i].0, v))),
    decreases s.len(),
{
    let t = s.update(i, (s[i].0, v));
    if i == s.len() - 1 {
        assert(t.drop_last() =~= s.drop_last());
        if code == s[i].0 {
        } else {
        }
    } else {
        assert(t.drop_last() =~= s.drop_last().update(i, (s[i].0, v)));
        lemma_count_update(s.drop_last(), i, v, code);
    }
}

impl MetricsCollector {
    pub closed spec fn wf(&self) -> bool {
        distinct_codes(self.reject_counts@)
    }

    /// Number of recorded decisions rejected for the reason with `code`.
    pub open spec fn rejects(&self, code: u8) -> u64 {
        count_of(self.reject_counts@, code)
    }

    /// All counters zero.
    pub fn new() -> (r: Self)
        ensures
            r.wf(),
            forall|c: u8| r.rejects(c) == 0,
            r.total_decisions == 0,
            r.total_entries == 0,
            r.api_error_count == 0,
            r.reconnect_count == 0,
            r.data_quality_events == 0,
            r.ibkr_subscription_count == 0,
            r.sla_breach_count == 0,
            r.symbols_promoted == 0,
            r.symbols_demoted == 0,
            r.symbols_evicted == 0,
            r.cold_symbol_count == 0,
            r.current_count == 0,
            r.budget == 0,
    {
        let r = MetricsCollector {
            reject_counts: Vec::new(),
            total_decisions: 0,
            total_entries: 0,
            api_error_count: 0,
            reconnect_count: 0,
            data_quality_events: 0,
            ibkr_subscription_count: 0,
            sla_breach_count: 0,
            symbols_promoted: 0,
            symbols_demoted: 0,
            symbols_evicted: 0,
            cold_symbol_count: 0,
            current_count: 0,
            budget: 0,
        };
        assert forall|c: u8| r.rejects(c) == 0 by {
            lemma_count_absent(r.reject_counts@, c);
        }
        r
    }

    /// Counts a decision: one more decision, one more entry when it entered, one
    /// more reject for its reject reason when it has one.
    pub fn record_decision(&mut self, log: &DecisionLog)
        requires
            old(self).wf(),
            old(self).total_decisions < u64::MAX,
            old(self).total_entries < u64::MAX,
            log.reject_reason matches Some(r) ==> old(self).rejects(spec_reason_code(r)) < u64::MAX,
        ensures
            final(self).wf(),
            final(self).total_decisions == old(self).total_decisions + 1,
            final(self).total_entries == old(self).total_entries
                + (if log.action == DecisionAction::Enter { 1u64 } else { 0u64 }),
            forall|c: u8| #[trigger] final(self).rejects(c) == old(self).rejects(c) + (
                if log.reject_reason matches Some(r) && spec_reason_code(r) == c { 1u64 } else { 0u64 }),
            final(self).api_error_count == old(self).api_error_count,
            final(self).reconnect_count == old(self).reconnect_count,
            final(self).data_quality_events == old(self).data_quality_events,
            final(self).ibkr_subscription_count == old(self).ibkr_subscription_count,
            final(self).sla_breach_count == old(self).sla_breach_count,
            final(self).symbols_promoted == old(self).symbols_promoted,
            final(self).symbols_demoted == old(self).symbols_demoted,
            final(self).symbols_evicted == old(self).symbols_evicted,
            final(self).cold_symbol_count == old(self).cold_symbol_count,
            final(self).current_count == old(self).current_count,
            final(self).budget == old(self).budget,
    {
        self.total_decisions = self.total_decisions + 1;
        if log.action == DecisionAction::Enter {
            self.total_entries = self.total_entries + 1;
        }
        if let Some(reason) = log.reject_reason {
            bump_reject(&mut self.reject_counts, reason.code());
        } else {
            assert forall|c: u8| #[trigger] self.rejects(c) == old(self).rejects(c) + 0u64 by {}
        }
    }

}

fn bump_reject(counts: &mut Vec<(u8, u64)>, code: u8)
    requires
        distinct_codes(old(counts)@),
        count_of(old(counts)@, code) < u64::MAX,
    ensures
        distinct_codes(final(counts)@),
        forall|c: u8| #[trigger] count_of(final(counts)@, c) == count_of(old(counts)@, c) + (if c == code { 1u64 } else { 0u64 }),
{
    let n = counts.len();
    let mut i: usize = 0;
    while i < n
        invariant
            n == counts@.len(),
            i <= n,
            counts@ == old(counts)@,
            distinct_codes(counts@),
            count_of(counts@, code) < u64::MAX,
            forall|j: int| 0 <= j < i ==> counts@[j].0 != code,
        decreases n - i,
    {
        if counts[i].0 == code {
            let ghost s = counts@;
            proof { lemma_count_at(s, i as int); }
            let v = counts[i].1 + 1;
            counts.set(i, (code, v));
            assert forall|c: u8| #[trigger] count_of(counts@, c) == count_of(s, c) + (if c == code { 1u64 } else { 0u64 }) by {
                lemma_count_update(s, i as int, v, c);
            }
            proof { lemma_count_update(s, i as int, v, code); }
            return;
        }
        i = i + 1;
    }
    let ghost s = counts@;
    proof { lemma_count_absent(s, code); }
    counts.push((code, 1));
    assert(counts@.drop_last() =~= s);
    assert forall|c: u8| #[trigger] count_of(counts@, c) == count_of(s, c) + (if c == code { 1u64 } else { 0u64 }) by {
        assert(counts@.drop_last() =~= s);
    }
    assert forall|a: int, b: int| 0 <= a < b < counts@.len() implies counts@[a].0 != counts@[b].0 by {
        if b == s.len() {
            assert(counts@[a] == s[a]);
        } else {
            assert(counts@[a] == s[a]);
            assert(counts@[b] == s[b]);
        }
    }
}

/// Record of one entry decision.
#[derive(Debug)]
pub struct DecisionLog {
    pub symbol_id: SymbolId,
    pub timestamp: u64,
    pub action: DecisionAction,
    pub reject_reason: Option<RejectReason>,
    pub secondary_reasons: [Option<RejectReason>; 3],
    pub gate_blocklist: bool,
    pub gate_corporate: bool,
    pub gate_price_range: bool,
    pub gate_universe: bool,
    pub gate_regime: bool,
    pub gate_daily_context: bool,
    pub gate_mtf: bool,
    pub gate_anti_chase: bool,
    pub gate_guards: bool,
    pub r_score: OrdKey,
    pub a_score: OrdKey,
    pub lp_score: OrdKey,
    pub spr_score: OrdKey,
    pub abs_score: OrdKey,
    pub bls_score: OrdKey,
    pub tape_score: OrdKey,
    pub tape_score_threshold: OrdKey,
    pub price: OrdKey,
    pub expected_net: OrdKey,
    pub expected_gross: OrdKey,
    pub total_fees: OrdKey,
    pub expected_slippage: OrdKey,
    pub latency_src_rx: u64,
    pub latency_rx_proc: u64,
    pub latency_proc_decision: u64,
    pub cold_start_state: ColdStartState,
    pub regime_state: RegimeState,
}

impl DecisionLog {
    /// A reject decision with every gate marked passed and every figure zero.
    pub fn new_reject(symbol_id: SymbolId, timestamp: u64, reason: RejectReason) -> (r: Self)
        ensures
            r.symbol_id == symbol_id,
            r.timestamp == timestamp,
            r.action == DecisionAction::Reject,
            r.reject_reason == Some(reason),
            r.secondary_reasons@ == seq![None::<RejectReason>, None, None],
            r.gate_blocklist && r.gate_corporate && r.gate_price_range && r.gate_universe,
            r.gate_regime && r.gate_daily_context && r.gate_mtf && r.gate_anti_chase && r.gate_guards,
            r.r_score.0 == KEY_ZERO && r.a_score.0 == KEY_ZERO && r.lp_score.0 == KEY_ZERO,
            r.spr_score.0 == KEY_ZERO && r.abs_score.0 == KEY_ZERO && r.bls_score.0 == KEY_ZERO,
            r.tape_score.0 == KEY_ZERO && r.tape_score_threshold.0 == KEY_ZERO,
            r.price.0 == KEY_ZERO && r.expected_net.0 == KEY_ZERO && r.expected_gross.0 == KEY_ZERO,
            r.total_fees.0 == KEY_ZERO && r.expected_slippage.0 == KEY_ZERO,
            r.latency_src_rx == 0 && r.latency_rx_proc == 0 && r.latency_proc_decision == 0,
            r.cold_start_state == ColdStartState::ColdStart,
            r.regime_state == RegimeState::Normal,
    {
        let z = OrdKey::zero();
        let r = DecisionLog {
            symbol_id,
            timestamp,
            action: DecisionAction::Reject,
            reject_reason: Some(reason),
            secondary_reasons: [None, None, None],
            gate_blocklist: true,
            gate_corporate: true,
            gate_price_range: true,
            gate_universe: true,
            gate_regime: true,
            gate_daily_context: true,
            gate_mtf: true,
            gate_anti_chase: true,
            gate_guards: true,
            r_score: z,
            a_score: z,
            lp_score: z,
            spr_score: z,
            abs_score: z,
            bls_score: z,
            tape_score: z,
            tape_score_threshold: z,
            price: z,
            expected_net: z,
            expected_gross: z,
            total_fees: z,
            expected_slippage: z,
            latency_src_rx: 0,
            latency_rx_proc: 0,
            latency_proc_decision: 0,
            cold_start_state: ColdStartState::ColdStart,
            regime_state: RegimeState::Normal,
        };
        assert(r.secondary_reasons@ =~= seq![None::<RejectReason>, None, None]);
        r
    }
}

} // verus!
