pub mod aob;
pub mod candles;
pub mod chunks;
pub mod db;
pub mod error;
pub mod pyth;
pub mod utils;
