pub mod history;
pub mod info;
pub mod search;
pub mod symbols;
