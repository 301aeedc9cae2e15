pub mod endpoints;
pub mod error;
pub mod structs;
pub mod utils;
