use vstd::prelude::*;

verus! {

/// Order-preserving key of an IEEE-754 double.
///
/// For a double with bit pattern `b`, the key is `b | SIGN` when the sign bit is
/// clear and `!b` when it is set, except that `-0.0` takes the key of `+0.0`.
/// Keys of non-NaN doubles compare as the doubles do. The negation of a double
/// other than zero is the bitwise complement of its key.
#[derive(Clone, Copy, Debug, PartialEq, Eq, Structural)]
pub struct OrdKey(pub u64);

/// Key of `+0.0`.
pub const KEY_ZERO: u64 = 0x8000_0000_0000_0000u64;
/// Key of `0.5`.
pub const KEY_HALF: u64 = 0xBFE0_0000_0000_0000u64;
/// Key of `1.0`.
pub const KEY_ONE: u64 = 0xBFF0_0000_0000_0000u64;
/// Key of the largest finite double.
pub const KEY_MAX_FINITE: u64 = 0xFFEF_FFFF_FFFF_FFFFu64;
/// Key of positive infinity; keys above it stand for NaNs.
pub const KEY_POS_INF: u64 = 0xFFF0_0000_0000_0000u64;
/// Key of negative infinity; keys below it stand for NaNs.
pub const KEY_NEG_INF: u64 = 0x000F_FFFF_FFFF_FFFFu64;

/// Sign bit of a double.
pub const SIGN_BIT: u64 = 0x8000_0000_0000_0000u64;

/// The key of the double with bit pattern `b`.
pub open spec fn key_of_bits(b: u64) -> u64 {
    if b == SIGN_BIT {
        KEY_ZERO
    } else if b < SIGN_BIT {
        b | SIGN_BIT
    } else {
        !b
    }
}

/// The bit pattern of the double a key stands for.
pub open spec fn bits_of_key(k: u64) -> u64 {
    if k >= SIGN_BIT {
        k ^ SIGN_BIT
    } else {
        !k
    }
}

/// The key stands for a NaN, which compares false with everything.
pub open spec fn key_is_nan(k: OrdKey) -> bool {
    k.0 > KEY_POS_INF || k.0 < KEY_NEG_INF
}

/// `a < b` on the doubles the keys stand for.
pub open spec fn key_lt(a: OrdKey, b: OrdKey) -> bool {
    !key_is_nan(a) && !key_is_nan(b) && a.0 < b.0
}

/// `a <= b` on the doubles the keys stand for.
pub open spec fn key_le(a: OrdKey, b: OrdKey) -> bool {
    !key_is_nan(a) && !key_is_nan(b) && a.0 <= b.0
}

impl OrdKey {
    /// The key of the double with bit pattern `bits` (`f64::to_bits`).
    pub fn from_bits(bits: u64) -> (r: OrdKey)
        ensures
            r.0 == key_of_bits(bits),
    {
        if bits == SIGN_BIT {
            OrdKey(KEY_ZERO)
        } else if bits < SIGN_BIT {
            OrdKey(bits | SIGN_BIT)
        } else {
            OrdKey(!bits)
        }
    }

    /// The bit pattern of the double this key stands for (`f64::from_bits`).
    pub fn to_bits(self) -> (r: u64)
        ensures
            r == bits_of_key(self.0),
    {
        if self.0 >= SIGN_BIT {
            self.0 ^ SIGN_BIT
        } else {
            !self.0
        }
    }

    /// The key of `+0.0`.
    pub fn zero() -> (r: OrdKey)
        ensures
            r.0 == KEY_ZERO,
    {
        OrdKey(KEY_ZERO)
    }

    /// Strictly greater, as the doubles the keys stand for (false with a NaN).
    pub fn gt(self, other: OrdKey) -> (r: bool)
        ensures
            r == key_lt(other, self),
    {
        self.0 <= KEY_POS_INF && self.0 >= KEY_NEG_INF && other.0 <= KEY_POS_INF && other.0 >= KEY_NEG_INF
            && self.0 > other.0
    }

    /// Strictly less, as the doubles the keys stand for (false with a NaN).
    pub fn lt(self, other: OrdKey) -> (r: bool)
        ensures
            r == key_lt(self, other),
    {
        self.0 <= KEY_POS_INF && self.0 >= KEY_NEG_INF && other.0 <= KEY_POS_INF && other.0 >= KEY_NEG_INF
            && self.0 < other.0
    }

    /// Greater or equal, as the doubles the keys stand for (false with a NaN).
    pub fn ge(self, other: OrdKey) -> (r: bool)
        ensures
            r == key_le(other, self),
    {
        self.0 <= KEY_POS_INF && self.0 >= KEY_NEG_INF && other.0 <= KEY_POS_INF && other.0 >= KEY_NEG_INF
            && self.0 >= other.0
    }

    /// Less or equal, as the doubles the keys stand for (false with a NaN).
    pub fn le(self, other: OrdKey) -> (r: bool)
        ensures
            r == key_le(self, other),
    {
        self.0 <= KEY_POS_INF && self.0 >= KEY_NEG_INF && other.0 <= KEY_POS_INF && other.0 >= KEY_NEG_INF
            && self.0 <= other.0
    }

    /// The key of the negated double.
    pub fn neg(self) -> (r: OrdKey)
        ensures
            r.0 == (if self.0 == KEY_ZERO { KEY_ZERO } else { !self.0 }),
    {
        if self.0 == KEY_ZERO {
            OrdKey(KEY_ZERO)
        } else {
            OrdKey(!self.0)
        }
    }
}

#[derive(Clone, Copy, Debug, PartialEq, Eq, Hash, Structural)]
pub struct SymbolId(pub u32);

#[derive(Clone, Copy, Debug, PartialEq, Eq, Structural)]
pub enum Side {
    Bid,
    Ask,
}

#[derive(Clone, Copy, Debug, PartialEq, Eq, Structural)]
pub enum OrderType {
    Limit,
    Market,
    Stop,
    StopLimit,
}

#[derive(Clone, Copy, Debug, PartialEq, Eq, Structural)]
pub enum TimeInForce {
    Day,
    GTC,
    IOC,
    FOK,
}

/// Life cycle of an order, including the cancel flow.
#[derive(Clone, Copy, Debug, PartialEq, Eq, Structural)]
pub enum OrderStatus {
    Pending,
    Live,
    Filled,
    Cancelled,
    Rejected,
    PendingCancel,
    CancelSent,
    CancelRejected,
    CancelTimeout,
}

/// Fixed-size reject reason.
#[derive(Clone, Copy, Debug, PartialEq, Eq, Structural)]
pub enum RejectReason {
    Blocklist,
    CorporateActionBlock,
    PriceRange,
    Liquidity,
    Regime,
    DailyContext,
    MtfVeto,
    AntiChase,
    GuardSpread,
    GuardImbalance,
    GuardStale,
    GuardSlippage,
    GuardL2Vacuum,
    GuardFlicker,
    TapeScoreLow,
    NetNegative,
    Exposure,
    TapeReversal,
    MonitorOnly,
    MaxDailyLoss,
    PdtViolation,
    Unknown,
}

#[derive(Clone, Copy, Debug, PartialEq, Eq, Structural)]
pub enum CorporateAction {
    Allowed,
    Watch,
    Block,
}

#[derive(Clone, Copy, Debug, PartialEq, Eq, Structural)]
pub enum RegimeState {
    Normal,
    Caution,
    RiskOff,
}

#[derive(Clone, Copy, Debug, PartialEq, Eq, Structural)]
pub enum DataQuality {
    Normal,
    Degraded,
    Halted,
}

#[derive(Clone, Copy, Debug, PartialEq, Eq, Structural)]
pub enum ContextState {
    Undetermined,
    Play,
    NoPlay,
}

#[derive(Clone, Copy, Debug, PartialEq, Eq, Hash, Structural)]
pub enum Tier {
    A,
    B,
    C,
}

#[derive(Clone, Copy, Debug, PartialEq, Eq, Structural)]
pub enum SubscriptionStatus {
    Unsubscribed,
    Pending,
    Active,
    Error,
}

#[derive(Clone, Copy, Debug, PartialEq, Eq, Structural)]
pub enum ColdStartState {
    ColdStart,
    WarmActive,
    FullActive,
}

/// Longest idempotency key, in bytes of UTF-8.
pub const MAX_KEY_BYTES: usize = 64;

/// An idempotency key fits in its 64 bytes.
pub open spec fn key_fits(k: Seq<char>) -> bool {
    vstd::utf8::encode_utf8(k).len() <= MAX_KEY_BYTES
}

/// Whether `k` fits as an idempotency key (see [`key_fits`]).
pub fn fits_key(k: &str) -> (b: bool)
    ensures
        b == key_fits(k@),
{
    let bytes = k.as_bytes();
    bytes.len() <= MAX_KEY_BYTES
}

/// A new order as requested by the decision loop. Its idempotency key holds
/// at most [`MAX_KEY_BYTES`] bytes; the order management system takes no
/// other.
#[derive(Debug, Clone)]
pub struct OrderRequest {
    pub symbol_id: SymbolId,
    pub side: Side,
    pub qty: u32,
    pub order_type: OrderType,
    pub limit_price: Option<OrdKey>,
    pub stop_price: Option<OrdKey>,
    pub tif: TimeInForce,
    pub idempotency_key: String,
    pub take_profit_price: Option<OrdKey>,
    pub stop_loss_price: Option<OrdKey>,
}

/// An order known to the order management system.
#[derive(Debug)]
pub struct Order {
    pub order_id: u64,
    pub client_order_id: String,
    pub broker_order_id: Option<String>,
    pub symbol_id: SymbolId,
    pub side: Side,
    pub qty: u32,
    pub filled_qty: u32,
    pub avg_fill_price: OrdKey,
    pub order_type: OrderType,
    pub limit_price: Option<OrdKey>,
    pub stop_price: Option<OrdKey>,
    pub status: OrderStatus,
    pub created_at: u64,
    pub updated_at: u64,
}

impl Order {
    /// A field-by-field copy of the order.
    pub fn duplicate(&self) -> (r: Order)
        ensures
            r == *self,
    {
        let broker_order_id = match &self.broker_order_id {
            Some(b) => Some(b.clone()),
            None => None,
        };
        Order {
            order_id: self.order_id,
            client_order_id: self.client_order_id.clone(),
            broker_order_id,
            symbol_id: self.symbol_id,
            side: self.side,
            qty: self.qty,
            filled_qty: self.filled_qty,
            avg_fill_price: self.avg_fill_price,
            order_type: self.order_type,
            limit_price: self.limit_price,
            stop_price: self.stop_price,
            status: self.status,
            created_at: self.created_at,
            updated_at: self.updated_at,
        }
    }
}

/// A fill reported by the broker for one of our orders.
#[derive(Clone, Copy, Debug)]
pub struct FillData {
    pub order_id: u64,
    pub price: OrdKey,
    pub size: u32,
    pub side: Side,
    pub liquidity: u8,
}

/// An order status update reported by the broker.
#[derive(Clone, Copy, Debug)]
pub struct OrderStatusData {
    pub order_id: u64,
    pub status: OrderStatus,
    pub filled_qty: u32,
    pub remaining_qty: u32,
    pub avg_fill_price: OrdKey,
}

#[derive(Clone, Copy, Debug)]
pub struct RejectData {
    pub order_id: u64,
    pub reason: RejectReason,
    pub code: u16,
}

/// A broker position reported at state synchronisation.
#[derive(Clone, Copy, Debug)]
pub struct PositionData {
    pub symbol_id: SymbolId,
    pub qty: i32,
    pub avg_cost: OrdKey,
}

/// Broker truth sent after a reconnect.
#[derive(Debug)]
pub struct StateSyncData {
    pub open_orders: Vec<Order>,
    pub positions: Vec<PositionData>,
}

impl StateSyncData {
    /// An element-by-element copy.
    pub fn duplicate(&self) -> (r: StateSyncData)
        ensures
            r.open_orders@ == self.open_orders@,
            r.positions@ == self.positions@,
    {
        let mut open_orders: Vec<Order> = Vec::new();
        let mut i: usize = 0;
        while i < self.open_orders.len()
            invariant
                i <= self.open_orders@.len(),
                open_orders@ == self.open_orders@.take(i as int),
            decreases self.open_orders@.len() - i,
        {
            open_orders.push(self.open_orders[i].duplicate());
            proof {
                assert(self.open_orders@.take(i + 1) =~= self.open_orders@.take(i as int).push(self.open_orders@[i as int]));
            }
            i = i + 1;
        }
        let mut positions: Vec<PositionData> = Vec::new();
        let mut j: usize = 0;
        while j < self.positions.len()
            invariant
                j <= self.positions@.len(),
                positions@ == self.positions@.take(j as int),
            decreases self.positions@.len() - j,
        {
            positions.push(self.positions[j]);
            proof {
                assert(self.positions@.take(j + 1) =~= self.positions@.take(j as int).push(self.positions@[j as int]));
            }
            j = j + 1;
        }
        proof {
            assert(self.open_orders@.take(self.open_orders@.len() as int) =~= self.open_orders@);
            assert(self.positions@.take(self.positions@.len() as int) =~= self.positions@);
        }
        StateSyncData { open_orders, positions }
    }
}


#[derive(Debug)]
pub struct SectorMomentum {
    pub etf_symbol: String,
    pub change_pct: OrdKey,
    pub is_favorable: bool,
}

impl SectorMomentum {
    /// A field-by-field copy.
    pub fn duplicate(&self) -> (r: SectorMomentum)
        ensures
            r == *self,
    {
        SectorMomentum {
            etf_symbol: self.etf_symbol.clone(),
            change_pct: self.change_pct,
            is_favorable: self.is_favorable,
        }
    }
}

#[derive(Clone, Copy, Debug, PartialEq, Eq, Structural)]
pub struct VolumeProfile {
    pub current_volume: u64,
    pub avg_20d_volume: u64,
    pub is_surge: bool,
}

#[derive(Debug)]
pub struct DailyContext {
    pub symbol_id: SymbolId,
    pub state: ContextState,
    pub volume_profile: VolumeProfile,
    pub has_news: bool,
    pub sector_momentum: Option<SectorMomentum>,
}

impl DailyContext {
    /// A field-by-field copy.
    pub fn duplicate(&self) -> (r: DailyContext)
        ensures
            r == *self,
    {
        let sector_momentum = match &self.sector_momentum {
            Some(m) => Some(m.duplicate()),
            None => None,
        };
        DailyContext {
            symbol_id: self.symbol_id,
            state: self.state,
            volume_profile: self.volume_profile,
            has_news: self.has_news,
            sector_momentum,
        }
    }
}

#[derive(Clone, Copy, Debug, PartialEq, Eq, Structural)]
pub struct MtfAnalysis {
    pub weekly_trend_confirmed: bool,
    pub daily_resistance_cleared: bool,
    pub structure_4h_bullish: bool,
    pub pullback_15m_valid: bool,
    pub mtf_pass: bool,
}

/// Keys round-trip to the same double, except that `-0.0` comes back as
/// `+0.0`.
pub proof fn law_key_round_trip(b: u64)
    ensures
        b != SIGN_BIT ==> bits_of_key(key_of_bits(b)) == b,
        b == SIGN_BIT ==> bits_of_key(key_of_bits(b)) == 0,
{
    assert(b < SIGN_BIT ==> (b | SIGN_BIT) >= SIGN_BIT && ((b | SIGN_BIT) ^ SIGN_BIT) == b) by (bit_vector)
        requires SIGN_BIT == 0x8000_0000_0000_0000u64;
    assert(b > SIGN_BIT ==> !b < SIGN_BIT && !!b == b) by (bit_vector)
        requires SIGN_BIT == 0x8000_0000_0000_0000u64;
    assert((KEY_ZERO ^ SIGN_BIT) == 0u64) by (bit_vector)
        requires SIGN_BIT == 0x8000_0000_0000_0000u64, KEY_ZERO == 0x8000_0000_0000_0000u64;
}

} // verus!
