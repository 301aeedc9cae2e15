use vstd::prelude::*;
use crate::server::structs::raw_market::{RawMarket, find_market, has_market_named};

verus! {

/// Whether some market is named `market_name`.
pub fn valid_market(market_name: &str, markets: &[RawMarket]) -> (r: bool)
    ensures
        r == has_market_named(markets@, market_name@),
{
    match find_market(markets, market_name) {
        Some(_) => true,
        None => false,
    }
}

} // verus!
