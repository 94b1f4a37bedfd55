//! Supervisory decisions of the task graph: the market-data subscription
//! budget, monitor-only on data degradation, the orders that flatten every
//! open position, and the idempotency keys of the orders the engine sends.
use vstd::prelude::*;
use crate::types::{OrderRequest, OrderType, Side, SymbolId, TimeInForce};

verus! {

/// Decimal digits of a natural number, most significant first.
pub open spec fn decimal(n: nat) -> Seq<char>
    decreases n,
{
    if n < 10 {
        seq![digit_char(n)]
    } else {
        decimal(n / 10).push(digit_char(n % 10))
    }
}

/// The ASCII digit of a number below ten.
pub open spec fn digit_char(d: nat) -> char {
    if d == 0 {
        '0'
    } else if d == 1 {
        '1'
    } else if d == 2 {
        '2'
    } else if d == 3 {
        '3'
    } else if d == 4 {
        '4'
    } else if d == 5 {
        '5'
    } else if d == 6 {
        '6'
    } else if d == 7 {
        '7'
    } else if d == 8 {
        '8'
    } else {
        '9'
    }
}

fn digit_text(d: u64) -> (s: &'static str)
    requires
        d < 10,
    ensures
        s@ == seq![digit_char(d as nat)],
{
    proof {
        reveal_strlit("0");
        reveal_strlit("1");
        reveal_strlit("2");
        reveal_strlit("3");
        reveal_strlit("4");
        reveal_strlit("5");
        reveal_strlit("6");
        reveal_strlit("7");
        reveal_strlit("8");
        reveal_strlit("9");
    }
    if d == 0 {
        "0"
    } else if d == 1 {
        "1"
    } else if d == 2 {
        "2"
    } else if d == 3 {
        "3"
    } else if d == 4 {
        "4"
    } else if d == 5 {
        "5"
    } else if d == 6 {
        "6"
    } else if d == 7 {
        "7"
    } else if d == 8 {
        "8"
    } else {
        "9"
    }
}

/// Appends the decimal digits of `n` to `out`.
pub fn push_decimal(out: &mut String, n: u64)
    ensures
        final(out)@ == old(out)@ + decimal(n as nat),
    decreases n,
{
    if n >= 10 {
        push_decimal(out, n / 10);
    }
    let piece = digit_text(n % 10);
    out.append(piece);
    proof {
        if n >= 10 {
            assert(decimal(n as nat) == decimal((n / 10) as nat).push(digit_char((n % 10) as nat)));
        }
    }
}

/// Idempotency key `<prefix><symbol>-<ts>`.
pub open spec fn order_key(prefix: Seq<char>, symbol: u32, ts_src: u64) -> Seq<char> {
    prefix + decimal(symbol as nat) + "-"@ + decimal(ts_src as nat)
}

/// The idempotency key `<prefix><symbol>-<ts>` of an order the engine sends:
/// an empty prefix for entries, `CLOSE-ALL-` when flattening, and
/// `EMERGENCY-EXIT-` after a long halt.
pub fn make_order_key(prefix: &str, symbol: SymbolId, ts_src: u64) -> (k: String)
    ensures
        k@ == order_key(prefix@, symbol.0, ts_src),
{
    let mut k = String::from_str(prefix);
    push_decimal(&mut k, symbol.0 as u64);
    proof {
        reveal_strlit("-");
    }
    k.append("-");
    push_decimal(&mut k, ts_src);
    k
}

/// One order of a flattening: symbol, side and size.
pub open spec fn close_leg(p: (SymbolId, i32)) -> (SymbolId, Side, u32) {
    (p.0, if p.1 > 0 { Side::Ask } else { Side::Bid }, if p.1 > 0 { p.1 as u32 } else { (-p.1) as u32 })
}

/// The legs of a flattening, in the order of the positions, skipping flat ones.
pub open spec fn close_plan(p: Seq<(SymbolId, i32)>) -> Seq<(SymbolId, Side, u32)>
    decreases p.len(),
{
    if p.len() == 0 {
        Seq::empty()
    } else if p.last().1 == 0 {
        close_plan(p.drop_last())
    } else {
        close_plan(p.drop_last()).push(close_leg(p.last()))
    }
}

/// Whether `r` is the immediate-or-cancel market order that closes `leg`,
/// keyed `CLOSE-ALL-<symbol>-<ts>`.
pub open spec fn is_close_order(r: OrderRequest, leg: (SymbolId, Side, u32), ts_src: u64) -> bool {
    &&& r.symbol_id == leg.0
    &&& r.side == leg.1
    &&& r.qty == leg.2
    &&& r.order_type == OrderType::Market
    &&& r.tif == TimeInForce::IOC
    &&& r.limit_price is None
    &&& r.stop_price is None
    &&& r.take_profit_price is None
    &&& r.stop_loss_price is None
    &&& r.idempotency_key@ == order_key("CLOSE-ALL-"@, leg.0.0, ts_src)
}

/// The orders that flatten every open position when the daily loss limit is
/// breached: for each non-flat `(symbol, qty)`, a market IOC order on the
/// opposite side for `|qty|` shares.
pub fn close_all_orders(positions: &Vec<(SymbolId, i32)>, ts_src: u64) -> (v: Vec<OrderRequest>)
    ensures
        v@.len() == close_plan(positions@).len(),
        forall|i: int| 0 <= i < v@.len() ==> is_close_order(#[trigger] v@[i], close_plan(positions@)[i], ts_src),
{
    let mut v: Vec<OrderRequest> = Vec::new();
    let mut i: usize = 0;
    while i < positions.len()
        invariant
            i <= positions@.len(),
            v@.len() == close_plan(positions@.take(i as int)).len(),
            forall|j: int| 0 <= j < v@.len() ==> is_close_order(#[trigger] v@[j], close_plan(positions@.take(i as int))[j], ts_src),
        decreases positions@.len() - i,
    {
        let (symbol, qty) = positions[i];
        proof {
            assert(positions@.take(i + 1).drop_last() =~= positions@.take(i as int));
            assert(positions@.take(i + 1).last() == positions@[i as int]);
        }
        if qty != 0 {
            let side = if qty > 0 { Side::Ask } else { Side::Bid };
            let size: u32 = if qty > 0 { qty as u32 } else { (-(qty as i64)) as u32 };
            proof {
                reveal_strlit("CLOSE-ALL-");
            }
            let key = make_order_key("CLOSE-ALL-", symbol, ts_src);
            let req = OrderRequest {
                symbol_id: symbol,
                side,
                qty: size,
                order_type: OrderType::Market,
                limit_price: None,
                stop_price: None,
                tif: TimeInForce::IOC,
                idempotency_key: key,
                take_profit_price: None,
                stop_loss_price: None,
            };
            v.push(req);
        }
        i = i + 1;
    }
    proof {
        assert(positions@.take(positions@.len() as int) =~= positions@);
    }
    v
}

/// What the slow loop may do about a promotion, given the subscriptions in use.
#[derive(Debug, Clone, Copy, PartialEq, Eq, Structural)]
pub enum BudgetVerdict {
    /// The budget is used up: no promotion.
    Exhausted,
    /// Promotions go on, past the warning threshold.
    NearLimit,
    /// Promotions go on.
    Open,
}

/// Market-data subscriptions in use against the broker's budget.
#[derive(Debug, Clone, Copy)]
pub struct SubscriptionBudget {
    pub count: u32,
    pub limit: u32,
    /// Count from which each promotion is reported as near the limit.
    pub warn_at: u32,
}

pub open spec fn budget_verdict(count: u32, limit: u32, warn_at: u32) -> BudgetVerdict {
    if count >= limit {
        BudgetVerdict::Exhausted
    } else if count >= warn_at {
        BudgetVerdict::NearLimit
    } else {
        BudgetVerdict::Open
    }
}

impl SubscriptionBudget {
    pub fn new(limit: u32, warn_at: u32) -> (b: Self)
        ensures
            b.count == 0,
            b.limit == limit,
            b.warn_at == warn_at,
    {
        SubscriptionBudget { count: 0, limit, warn_at }
    }

    /// Whether a promotion may be tried now.
    pub fn verdict(&self) -> (v: BudgetVerdict)
        ensures
            v == budget_verdict(self.count, self.limit, self.warn_at),
    {
        if self.count >= self.limit {
            BudgetVerdict::Exhausted
        } else if self.count >= self.warn_at {
            BudgetVerdict::NearLimit
        } else {
            BudgetVerdict::Open
        }
    }

    /// Counts a promotion that succeeded; nothing once the budget is used up.
    pub fn record_promotion(&mut self) -> (was_counted: bool)
        ensures
            was_counted == (old(self).count < old(self).limit),
            final(self).count == counted(old(self).count, old(self).limit),
            final(self).limit == old(self).limit,
            final(self).warn_at == old(self).warn_at,
    {
        if self.count < self.limit {
            self.count = self.count + 1;
            true
        } else {
            false
        }
    }
}

/// The count a promotion leaves: one more while under the limit, else the same.
pub open spec fn counted(count: u32, limit: u32) -> int {
    if count < limit { count + 1 } else { count as int }
}

/// The subscriptions in use never exceed the budget: a budget within its
/// limit stays within it after any number of counted promotions, and a
/// promotion is allowed exactly when it leaves the count within the limit.
pub proof fn law_budget_never_exceeded(b: SubscriptionBudget, n: nat)
    requires
        b.count <= b.limit,
    ensures
        budget_verdict(b.count, b.limit, b.warn_at) != BudgetVerdict::Exhausted <==> b.count + 1 <= b.limit,
        counted(b.count, b.limit) <= b.limit,
        repeated_count(b.count, b.limit, n) <= b.limit,
    decreases n,
{
    if n > 0 {
        law_budget_never_exceeded(SubscriptionBudget { count: counted(b.count, b.limit) as u32, ..b }, (n - 1) as nat);
    }
}

/// The count after `n` promotions were reported.
pub open spec fn repeated_count(count: u32, limit: u32, n: nat) -> int
    decreases n,
{
    if n == 0 {
        count as int
    } else {
        repeated_count(counted(count, limit) as u32, limit, (n - 1) as nat)
    }
}

/// Change to the monitor-only flag asked for by a data-quality report.
#[derive(Debug, Clone, Copy, PartialEq, Eq, Structural)]
pub enum MonitorOnlyChange {
    Enter,
    Exit,
    Keep,
}

/// Whether monitor-only was switched on by a data degradation, so that only a
/// restoration of the data lifts it.
#[derive(Debug, Clone, Copy)]
pub struct DegradedLatch {
    pub set_by_degradation: bool,
}

pub open spec fn quality_step(set: bool, is_degraded: bool) -> (bool, MonitorOnlyChange) {
    if is_degraded {
        (true, MonitorOnlyChange::Enter)
    } else if set {
        (false, MonitorOnlyChange::Exit)
    } else {
        (false, MonitorOnlyChange::Keep)
    }
}

impl DegradedLatch {
    pub fn new() -> (l: Self)
        ensures
            !l.set_by_degradation,
    {
        DegradedLatch { set_by_degradation: false }
    }

    /// A data-quality report: degradation enters monitor-only; restoration
    /// leaves it only if a degradation had entered it.
    pub fn on_quality(&mut self, is_degraded: bool) -> (c: MonitorOnlyChange)
        ensures
            (final(self).set_by_degradation, c) == quality_step(old(self).set_by_degradation, is_degraded),
    {
        if is_degraded {
            self.set_by_degradation = true;
            MonitorOnlyChange::Enter
        } else if self.set_by_degradation {
            self.set_by_degradation = false;
            MonitorOnlyChange::Exit
        } else {
            MonitorOnlyChange::Keep
        }
    }
}

/// A restoration lifts monitor-only exactly when a degradation came before
/// it, and a restoration never lifts a monitor-only set for another reason.
pub proof fn law_restore_undoes_degradation(set: bool)
    ensures
        quality_step(quality_step(set, true).0, false).1 == MonitorOnlyChange::Exit,
        quality_step(false, false).1 == MonitorOnlyChange::Keep,
        !quality_step(quality_step(set, false).0, false).0,
{
}

} // verus!
