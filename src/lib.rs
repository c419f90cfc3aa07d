//! A terminal resource monitor: network rate tracking, gauge bars, the battery
//! refresh throttle, the per-cycle log and the run/stop protocol of the dashboard.
pub mod battery;
pub mod clock;
pub mod gauge;
pub mod lifecycle;
pub mod log;
pub mod panels;
pub mod ranking;
pub mod rate;
pub mod text;
pub mod units;
