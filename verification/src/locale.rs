//! Translation keys for reject reasons. Logs keep the reason code; the
//! display layer looks the key up in its message catalogue.
use vstd::prelude::*;
use crate::types::RejectReason;

verus! {

/// The catalogue key of each reject reason.
pub open spec fn fluent_key_of(reason: RejectReason) -> Seq<char> {
    match reason {
        RejectReason::Blocklist => "reject-blocklist"@,
        RejectReason::CorporateActionBlock => "reject-corporate-action-block"@,
        RejectReason::PriceRange => "reject-price-range"@,
        RejectReason::Liquidity => "reject-liquidity"@,
        RejectReason::Regime => "reject-regime"@,
        RejectReason::DailyContext => "reject-daily-context"@,
        RejectReason::MtfVeto => "reject-mtf-veto"@,
        RejectReason::AntiChase => "reject-anti-chase"@,
        RejectReason::GuardSpread => "reject-guard-spread"@,
        RejectReason::GuardImbalance => "reject-guard-imbalance"@,
        RejectReason::GuardStale => "reject-guard-stale"@,
        RejectReason::GuardSlippage => "reject-guard-slippage"@,
        RejectReason::GuardL2Vacuum => "reject-guard-l2-vacuum"@,
        RejectReason::GuardFlicker => "reject-guard-flicker"@,
        RejectReason::TapeScoreLow => "reject-tape-score-low"@,
        RejectReason::NetNegative => "reject-net-negative"@,
        RejectReason::Exposure => "reject-exposure"@,
        RejectReason::TapeReversal => "reject-tape-reversal"@,
        RejectReason::MonitorOnly => "reject-monitor-only"@,
        RejectReason::MaxDailyLoss => "reject-max-daily-loss"@,
        RejectReason::PdtViolation => "reject-pdt-violation"@,
        RejectReason::Unknown => "reject-unknown"@,
    }
}

impl RejectReason {
    /// The message-catalogue key of this reason.
    pub fn fluent_key(self) -> (k: &'static str)
        ensures
            k@ == fluent_key_of(self),
    {
        match self {
            RejectReason::Blocklist => "reject-blocklist",
            RejectReason::CorporateActionBlock => "reject-corporate-action-block",
            RejectReason::PriceRange => "reject-price-range",
            RejectReason::Liquidity => "reject-liquidity",
            RejectReason::Regime => "reject-regime",
            RejectReason::DailyContext => "reject-daily-context",
            RejectReason::MtfVeto => "reject-mtf-veto",
            RejectReason::AntiChase => "reject-anti-chase",
            RejectReason::GuardSpread => "reject-guard-spread",
            RejectReason::GuardImbalance => "reject-guard-imbalance",
            RejectReason::GuardStale => "reject-guard-stale",
            RejectReason::GuardSlippage => "reject-guard-slippage",
            RejectReason::GuardL2Vacuum => "reject-guard-l2-vacuum",
            RejectReason::GuardFlicker => "reject-guard-flicker",
            RejectReason::TapeScoreLow => "reject-tape-score-low",
            RejectReason::NetNegative => "reject-net-negative",
            RejectReason::Exposure => "reject-exposure",
            RejectReason::TapeReversal => "reject-tape-reversal",
            RejectReason::MonitorOnly => "reject-monitor-only",
            RejectReason::MaxDailyLoss => "reject-max-daily-loss",
            RejectReason::PdtViolation => "reject-pdt-violation",
            RejectReason::Unknown => "reject-unknown",
        }
    }
}

/// Every reject reason has a non-empty key that starts with `reject-`.
pub proof fn law_keys_prefixed(reason: RejectReason)
    ensures
        fluent_key_of(reason).len() > 0,
        "reject-"@.is_prefix_of(fluent_key_of(reason)),
{
    reveal_strlit("reject-");
    match reason {
        RejectReason::Blocklist => reveal_strlit("reject-blocklist"),
        RejectReason::CorporateActionBlock => reveal_strlit("reject-corporate-action-block"),
        RejectReason::PriceRange => reveal_strlit("reject-price-range"),
        RejectReason::Liquidity => reveal_strlit("reject-liquidity"),
        RejectReason::Regime => reveal_strlit("reject-regime"),
        RejectReason::DailyContext => reveal_strlit("reject-daily-context"),
        RejectReason::MtfVeto => reveal_strlit("reject-mtf-veto"),
        RejectReason::AntiChase => reveal_strlit("reject-anti-chase"),
        RejectReason::GuardSpread => reveal_strlit("reject-guard-spread"),
        RejectReason::GuardImbalance => reveal_strlit("reject-guard-imbalance"),
        RejectReason::GuardStale => reveal_strlit("reject-guard-stale"),
        RejectReason::GuardSlippage => reveal_strlit("reject-guard-slippage"),
        RejectReason::GuardL2Vacuum => reveal_strlit("reject-guard-l2-vacuum"),
        RejectReason::GuardFlicker => reveal_strlit("reject-guard-flicker"),
        RejectReason::TapeScoreLow => reveal_strlit("reject-tape-score-low"),
        RejectReason::NetNegative => reveal_strlit("reject-net-negative"),
        RejectReason::Exposure => reveal_strlit("reject-exposure"),
        RejectReason::TapeReversal => reveal_strlit("reject-tape-reversal"),
        RejectReason::MonitorOnly => reveal_strlit("reject-monitor-only"),
        RejectReason::MaxDailyLoss => reveal_strlit("reject-max-daily-loss"),
        RejectReason::PdtViolation => reveal_strlit("reject-pdt-violation"),
        RejectReason::Unknown => reveal_strlit("reject-unknown"),
    }
}

} // verus!
