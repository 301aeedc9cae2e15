pub mod tradingview;
