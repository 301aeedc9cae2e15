pub mod candles;
pub mod raw_market;
pub mod tradingview;
