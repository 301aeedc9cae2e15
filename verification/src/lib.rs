//! Candle aggregation for TradingView charts: the request logic of the
//! candle server and the price sampling logic of the candle worker.

pub mod server;
pub mod text;
pub mod time;
pub mod worker;
