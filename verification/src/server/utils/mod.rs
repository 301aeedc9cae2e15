pub mod db;
pub mod market_name;
pub mod markets;
