pub mod markets;
pub mod pubkey;
