//! Pre-trade risk state: the symbol blocklist, corporate actions and the
//! daily-loss stop. The last authority before an order reaches the OMS.
use vstd::prelude::*;
use crate::symmap::{SymMap, SymSet};
use crate::types::{key_le, key_lt, CorporateAction, OrdKey, RejectReason, SymbolId, KEY_ZERO};

verus! {

/// Bounds of the tradable universe (keys of doubles).
#[derive(Debug, Clone, Copy)]
pub struct LiquidityLimits {
    pub target_price_min: OrdKey,
    pub target_price_max: OrdKey,
    /// Largest spread, as a fraction of the price.
    pub max_spread_pct: OrdKey,
    pub min_avg_daily_volume: u64,
    /// Least average daily dollar volume.
    pub min_addv_usd: OrdKey,
}

/// Key of 1.0.
pub const KEY_1: u64 = 0xBFF0_0000_0000_0000u64;
/// Key of 20.0.
pub const KEY_20: u64 = 0xC034_0000_0000_0000u64;
/// Key of 0.05.
pub const KEY_5_PCT: u64 = 0xBFA9_9999_9999_999Au64;
/// Key of 1 000 000.0.
pub const KEY_1M: u64 = 0xC12E_8480_0000_0000u64;

impl Default for LiquidityLimits {
    /// Prices from 1 to 20, spread at most 5%, 500 000 shares and one million
    /// dollars of average daily volume.
    fn default() -> (l: Self)
        ensures
            l.target_price_min == OrdKey(KEY_1),
            l.target_price_max == OrdKey(KEY_20),
            l.max_spread_pct == OrdKey(KEY_5_PCT),
            l.min_avg_daily_volume == 500_000,
            l.min_addv_usd == OrdKey(KEY_1M),
    {
        LiquidityLimits {
            target_price_min: OrdKey(KEY_1),
            target_price_max: OrdKey(KEY_20),
            max_spread_pct: OrdKey(KEY_5_PCT),
            min_avg_daily_volume: 500_000,
            min_addv_usd: OrdKey(KEY_1M),
        }
    }
}

/// Verdict of the liquidity gate: a price outside the target range is a
/// price-range reject; a spread too wide, or too little average share or
/// dollar volume, is a liquidity reject.
pub open spec fn liquidity_verdict(
    l: LiquidityLimits,
    price: OrdKey,
    spread_pct: OrdKey,
    adv: u64,
    addv_usd: OrdKey,
) -> Result<(), RejectReason> {
    if key_lt(price, l.target_price_min) || key_lt(l.target_price_max, price) {
        Err(RejectReason::PriceRange)
    } else if key_lt(l.max_spread_pct, spread_pct) || adv < l.min_avg_daily_volume || key_lt(addv_usd, l.min_addv_usd) {
        Err(RejectReason::Liquidity)
    } else {
        Ok(())
    }
}

/// The liquidity gate of a candidate entry at `price`, with the spread as a
/// fraction of the price and the symbol's average daily share and dollar
/// volume (see [`liquidity_verdict`]).
pub fn check_liquidity(
    limits: &LiquidityLimits,
    price: OrdKey,
    spread_pct: OrdKey,
    adv: u64,
    addv_usd: OrdKey,
) -> (r: Result<(), RejectReason>)
    ensures
        r == liquidity_verdict(*limits, price, spread_pct, adv, addv_usd),
{
    if price.lt(limits.target_price_min) || limits.target_price_max.lt(price) {
        return Err(RejectReason::PriceRange);
    }
    if limits.max_spread_pct.lt(spread_pct) || adv < limits.min_avg_daily_volume || addv_usd.lt(limits.min_addv_usd) {
        return Err(RejectReason::Liquidity);
    }
    Ok(())
}

/// Risk state shared by the decision loops.
pub struct RiskState {
    /// Realised loss of the day (negative when losing).
    pub daily_loss_usd: OrdKey,
    pub open_positions: usize,
    /// Loss at which new entries stop, as a positive amount.
    pub max_daily_loss: OrdKey,
    pub corporate_actions: SymMap<CorporateAction>,
    pub blocklist: SymSet,
}

/// Verdict of the entry check on the given state.
pub open spec fn entry_verdict(
    blocked: Set<SymbolId>,
    actions: Map<SymbolId, CorporateAction>,
    daily_loss: OrdKey,
    max_daily_loss: OrdKey,
    symbol: SymbolId,
) -> Result<(), RejectReason> {
    if blocked.contains(symbol) {
        if actions.contains_key(symbol) && actions[symbol] == CorporateAction::Block {
            Err(RejectReason::CorporateActionBlock)
        } else {
            Err(RejectReason::Blocklist)
        }
    } else if key_le(daily_loss, neg_key(max_daily_loss)) {
        Err(RejectReason::DailyContext)
    } else {
        Ok(())
    }
}

/// The key of the negated double (see [`OrdKey::neg`]).
pub open spec fn neg_key(k: OrdKey) -> OrdKey {
    OrdKey(if k.0 == KEY_ZERO { KEY_ZERO } else { !k.0 })
}

impl RiskState {
    /// The two collections are well formed.
    pub open spec fn wf(&self) -> bool {
        self.corporate_actions.wf() && self.blocklist.wf()
    }

    /// The verdict `check_entry` gives for `symbol`.
    pub open spec fn verdict(&self, symbol: SymbolId) -> Result<(), RejectReason> {
        entry_verdict(self.blocklist@, self.corporate_actions@, self.daily_loss_usd, self.max_daily_loss, symbol)
    }

    /// A fresh state with no loss, no position and nothing blocked.
    pub fn new(max_daily_loss: OrdKey) -> (r: Self)
        ensures
            r.wf(),
            r.daily_loss_usd == OrdKey(KEY_ZERO),
            r.open_positions == 0,
            r.max_daily_loss == max_daily_loss,
            r.corporate_actions@ == Map::<SymbolId, CorporateAction>::empty(),
            r.blocklist@ == Set::<SymbolId>::empty(),
    {
        RiskState {
            daily_loss_usd: OrdKey::zero(),
            open_positions: 0,
            max_daily_loss,
            corporate_actions: SymMap::new(),
            blocklist: SymSet::new(),
        }
    }

    /// Records a corporate action; `Block` also puts the symbol on the blocklist.
    pub fn set_corporate_action(&mut self, symbol_id: SymbolId, action: CorporateAction)
        requires
            old(self).wf(),
        ensures
            final(self).wf(),
            final(self).corporate_actions@ == old(self).corporate_actions@.insert(symbol_id, action),
            final(self).blocklist@ == (if action == CorporateAction::Block {
                old(self).blocklist@.insert(symbol_id)
            } else {
                old(self).blocklist@
            }),
            final(self).daily_loss_usd == old(self).daily_loss_usd,
            final(self).max_daily_loss == old(self).max_daily_loss,
            final(self).open_positions == old(self).open_positions,
    {
        self.corporate_actions.insert(symbol_id, action);
        if action == CorporateAction::Block {
            self.blocklist.insert(symbol_id);
        }
    }

    /// Puts a symbol on the blocklist.
    pub fn block_symbol(&mut self, symbol_id: SymbolId)
        requires
            old(self).wf(),
        ensures
            final(self).wf(),
            final(self).blocklist@ == old(self).blocklist@.insert(symbol_id),
            final(self).corporate_actions@ == old(self).corporate_actions@,
            final(self).daily_loss_usd == old(self).daily_loss_usd,
            final(self).max_daily_loss == old(self).max_daily_loss,
            final(self).open_positions == old(self).open_positions,
    {
        self.blocklist.insert(symbol_id);
    }

    /// Takes a symbol off the blocklist, whatever its corporate action says.
    pub fn unblock_symbol(&mut self, symbol_id: SymbolId)
        requires
            old(self).wf(),
        ensures
            final(self).wf(),
            final(self).blocklist@ == old(self).blocklist@.remove(symbol_id),
            final(self).corporate_actions@ == old(self).corporate_actions@,
            final(self).daily_loss_usd == old(self).daily_loss_usd,
            final(self).max_daily_loss == old(self).max_daily_loss,
            final(self).open_positions == old(self).open_positions,
    {
        self.blocklist.remove(&symbol_id);
    }

    /// Whether a new entry in `symbol_id` passes: not blocked (a corporate
    /// action block is reported as such) and the daily loss not at its limit.
    pub fn check_entry(&self, symbol_id: SymbolId) -> (r: Result<(), RejectReason>)
        requires
            self.wf(),
        ensures
            r == self.verdict(symbol_id),
    {
        if self.blocklist.contains(&symbol_id) {
            match self.corporate_actions.get(symbol_id) {
                Some(CorporateAction::Block) => {
                    return Err(RejectReason::CorporateActionBlock);
                },
                _ => {},
            }
            return Err(RejectReason::Blocklist);
        }
        if self.daily_loss_usd.le(self.max_daily_loss.neg()) {
            return Err(RejectReason::DailyContext);
        }
        Ok(())
    }
}

/// A symbol whose corporate action was set to `Block` is refused with
/// `CorporateActionBlock`, whatever else the state holds.
pub proof fn law_corporate_block_refuses(
    blocked: Set<SymbolId>,
    actions: Map<SymbolId, CorporateAction>,
    daily_loss: OrdKey,
    max_daily_loss: OrdKey,
    symbol: SymbolId,
)
    ensures
        entry_verdict(
            blocked.insert(symbol),
            actions.insert(symbol, CorporateAction::Block),
            daily_loss,
            max_daily_loss,
            symbol,
        ) == Err::<(), RejectReason>(RejectReason::CorporateActionBlock),
{
}

/// A blocked symbol is never allowed, and unblocking a symbol leaves only the
/// daily-loss check in its way.
pub proof fn law_block_and_unblock(
    blocked: Set<SymbolId>,
    actions: Map<SymbolId, CorporateAction>,
    daily_loss: OrdKey,
    max_daily_loss: OrdKey,
    symbol: SymbolId,
)
    ensures
        entry_verdict(blocked.insert(symbol), actions, daily_loss, max_daily_loss, symbol) is Err,
        entry_verdict(blocked.remove(symbol), actions, daily_loss, max_daily_loss, symbol) is Ok
            <==> !key_le(daily_loss, neg_key(max_daily_loss)),
{
}

} // verus!
