use vstd::prelude::*;
use crate::server::error::ServerError;
use crate::server::structs::raw_market::{RawMarket, find_market, first_named, has_market_named};
use crate::server::structs::tradingview::{SymbolInfo, symbol_info_of};

verus! {

/// The parameters of a symbol request.
pub struct Params {
    pub symbol: String,
}

/// Describes the requested symbol; fails with `SymbolNotFound` when no market
/// has that name.
pub fn symbols_info(params: &Params, markets: &[RawMarket]) -> (r: Result<SymbolInfo, ServerError>)
    ensures
        match r {
            Ok(info) => exists|k: int|
                first_named(markets@, params.symbol@, k) && symbol_info_of(
                    info,
                    params.symbol@,
                    #[trigger] markets@[k],
                ),
            Err(e) => e == ServerError::SymbolNotFound && !has_market_named(
                markets@,
                params.symbol@,
            ),
        },
{
    if find_market(markets, params.symbol.as_str()).is_none() {
        return Err(ServerError::SymbolNotFound);
    }
    SymbolInfo::new(params.symbol.as_str(), markets)
}

} // verus!
