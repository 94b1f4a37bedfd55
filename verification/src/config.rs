//! Plain configuration records of the engine and of its channel topology.
use vstd::prelude::*;

verus! {

/// Order-execution settings.
#[derive(Debug, Clone, Copy)]
pub struct ExecutionConfig {
    /// How long a cancel may stay unanswered, in milliseconds.
    pub cancel_timeout_ms: u64,
}

/// Trading-session settings (times as `HH:MM` US-Eastern).
#[derive(Debug, Clone)]
pub struct SessionConfig {
    pub regular_open_et: String,
    pub trading_start_et: String,
    pub trading_end_et: String,
    pub regular_close_et: String,
    pub pre_after_enabled: bool,
    pub pre_after_min_volume: u64,
}

/// Multi-timeframe settings.
#[derive(Debug, Clone, Copy)]
pub struct MtfConfig {
    pub require_all: bool,
    pub stale_data_threshold_ms: u64,
}

/// Capacities of the channels between the tasks.
#[derive(Debug, Clone, Copy)]
pub struct ChannelConfig {
    pub bridge_rx_size: usize,
    pub fast_loop_size: usize,
    pub slow_loop_size: usize,
    pub oms_size: usize,
    pub metrics_size: usize,
    pub risk_size: usize,
}

impl Default for ChannelConfig {
    /// 4096 from the bridge, 16384 to the fast loop (ticks), 8192 to the slow
    /// loop, 1024 to the OMS, 8192 to metrics, 1024 to risk.
    fn default() -> (c: Self)
        ensures
            c.bridge_rx_size == 4096,
            c.fast_loop_size == 16384,
            c.slow_loop_size == 8192,
            c.oms_size == 1024,
            c.metrics_size == 8192,
            c.risk_size == 1024,
    {
        ChannelConfig {
            bridge_rx_size: 4096,
            fast_loop_size: 16384,
            slow_loop_size: 8192,
            oms_size: 1024,
            metrics_size: 8192,
            risk_size: 1024,
        }
    }
}

} // verus!
