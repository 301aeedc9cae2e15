use vstd::prelude::*;
use crate::server::error::ServerError;
use crate::server::structs::raw_market::{RawMarket, has_market_named};
use crate::server::structs::tradingview::{
    Resolution,
    decimal_text,
    interval_text,
    resolution_minutes,
    resolution_text,
};
use crate::server::utils::db::{make_query, query_head, query_tail};
use crate::server::utils::markets::valid_market;

verus! {

/// The parameters of a history request.
pub struct Params {
    pub symbol: String,
    pub from: u64,
    pub to: u64,
    pub resolution: String,
}

/// A history request that passed validation: the query to run and its
/// parameters.
pub struct HistoryQuery {
    pub resolution: Resolution,
    pub query: String,
    pub from: u64,
    pub to: u64,
    pub symbol: String,
}

/// Checks a history request: the resolution must be one that the server offers
/// (else `WrongResolution`), and the symbol must name a market (else
/// `WrongParameters`). An accepted request gives the aggregation query for its
/// resolution, with the request's bounds and symbol.
pub fn history_request(params: &Params, markets: &[RawMarket]) -> (r: Result<
    HistoryQuery,
    ServerError,
>)
    ensures
        match r {
            Ok(q) => {
                &&& resolution_text(q.resolution) == params.resolution@
                &&& has_market_named(markets@, params.symbol@)
                &&& q.query@ == query_head() + interval_text(q.resolution) + query_tail()
                &&& q.query@ == "\n            SELECT\n                time_bucket('"@ + decimal_text(resolution_minutes(q.resolution))
                    + " minutes"@ + "', timestamp) as ts_start,\n                first(open, timestamp) as open,\n                MIN(low) as low,\n                last(close, timestamp) as close,\n                MAX(high) as high\n            FROM\n                candles\n            WHERE\n                timestamp > $1\n                AND\n                timestamp < $2\n                AND\n                name = $3\n            GROUP BY\n                ts_start\n            ORDER BY\n                ts_start\n"@
                &&& q.from == params.from
                &&& q.to == params.to
                &&& q.symbol@ == params.symbol@
            },
            Err(e) => {
                ||| e == ServerError::WrongResolution && forall|res: Resolution|
                    resolution_text(res) != params.resolution@
                ||| e == ServerError::WrongParameters && (exists|res: Resolution|
                    resolution_text(res) == params.resolution@) && !has_market_named(
                    markets@,
                    params.symbol@,
                )
            },
        },
{
    let resolution = match Resolution::from_str(params.resolution.as_str()) {
        Ok(res) => res,
        Err(()) => return Err(ServerError::WrongResolution),
    };
    if !valid_market(params.symbol.as_str(), markets) {
        return Err(ServerError::WrongParameters);
    }
    Ok(
        HistoryQuery {
            resolution,
            query: make_query(resolution),
            from: params.from,
            to: params.to,
            symbol: params.symbol.clone(),
        },
    )
}

} // verus!
