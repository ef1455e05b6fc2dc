pub mod error;
pub mod safe_math;
pub mod constants;
pub mod le_bytes;
pub mod fee_math;
pub mod base_fee_mode;
pub mod fee_time_scheduler;
pub mod u256;
pub mod fee_market_cap_scheduler;
pub mod fee_rate_limiter;
pub mod base_fee_serde;
pub mod swap;
pub mod single_swap_guard;
