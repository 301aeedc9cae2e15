use vstd::prelude::*;
use crate::server::error::ServerError;
use crate::server::structs::raw_market::RawMarket;
use crate::server::structs::tradingview::Symbol;
use crate::text::{contains_text, occurs_in, occurs_in_itself, text_eq};

verus! {

/// The parameters of a search request. `limit` is the most results to return.
pub struct Params {
    pub query: String,
    pub search_type: String,
    pub exchange: String,
    pub limit: u8,
}

/// A market is a hit for `query` when the query occurs in its name, its name
/// occurs in the query, or the query occurs in its address.
pub open spec fn search_hit(m: RawMarket, query: Seq<char>) -> bool {
    ||| occurs_in(query, m.name@)
    ||| occurs_in(m.name@, query)
    ||| occurs_in(query, m.address@)
}

/// The hits for `query` among `markets`, in their order.
pub open spec fn search_hits(markets: Seq<RawMarket>, query: Seq<char>) -> Seq<RawMarket> {
    markets.filter(|m: RawMarket| search_hit(m, query))
}

/// `s` is the search result that presents the market `m`.
pub open spec fn symbol_describes(s: Symbol, m: RawMarket) -> bool {
    &&& s.symbol@ == m.name@
    &&& s.full_name@ == m.name@
    &&& s.description@ == "Name:"@ + m.name@ + " - Address: "@ + m.address@
    &&& s.exchange@ == "Bonfida"@
    &&& s.ticker@ == m.name@
    &&& s.symbol_type@ == "Spot"@
}

/// `s` presents a market of `markets` in which the query occurs, by name or
/// address, or whose name occurs in the query.
pub open spec fn presents_hit(s: Symbol, markets: Seq<RawMarket>, query: Seq<char>) -> bool {
    exists|k: int|
        0 <= k < markets.len() && symbol_describes(s, #[trigger] markets[k]) && (occurs_in(
            query,
            markets[k].name@,
        ) || occurs_in(markets[k].name@, query) || occurs_in(query, markets[k].address@))
}

/// One of `symbols` presents the market `m`.
pub open spec fn presented_in(symbols: Seq<Symbol>, m: RawMarket) -> bool {
    exists|j: int| 0 <= j < symbols.len() && symbol_describes(#[trigger] symbols[j], m)
}

/// A market is a hit exactly when the query occurs in its name, its name
/// occurs in the query, or the query occurs in its address.
pub proof fn hit_when_text_occurs(m: RawMarket, query: Seq<char>)
    ensures
        search_hit(m, query) <==> (occurs_in(query, m.name@) || occurs_in(m.name@, query)
            || occurs_in(query, m.address@)),
{
}

/// Searching for a market's whole address or whole name finds it: the
/// market is among the hits, and only markets that are hits are.
pub proof fn market_found_by_address_or_name(markets: Seq<RawMarket>, i: int, query: Seq<char>)
    requires
        0 <= i < markets.len(),
        markets[i].address@ == query || markets[i].name@ == query,
    ensures
        search_hits(markets, query).contains(markets[i]),
        forall|j: int|
            0 <= j < search_hits(markets, query).len() ==> search_hit(
                #[trigger] search_hits(markets, query)[j],
                query,
            ),
{
    occurs_in_itself(query);
    assert(search_hit(markets[i], query));
    markets.lemma_filter_contains(|m: RawMarket| search_hit(m, query), i);
    assert forall|j: int| 0 <= j < search_hits(markets, query).len() implies search_hit(
        #[trigger] search_hits(markets, query)[j],
        query,
    ) by {
        markets.lemma_filter_pred(|m: RawMarket| search_hit(m, query), j);
    }
}

/// The search result that presents one market.
pub fn market_symbol(m: &RawMarket) -> (s: Symbol)
    ensures
        symbol_describes(s, *m),
{
    let mut description = String::from_str("Name:");
    description.append(m.name.as_str());
    description.append(" - Address: ");
    description.append(m.address.as_str());
    Symbol {
        description,
        full_name: m.name.clone(),
        symbol: m.name.clone(),
        exchange: String::from_str("Bonfida"),
        ticker: m.name.clone(),
        symbol_type: String::from_str("Spot"),
    }
}

/// Searches the spot markets of the exchange Bonfida. Any other search type
/// or exchange is refused with `WrongParameters`; otherwise the result
/// presents the first `limit` hits for the query (all of them when there are
/// fewer), in the order of `markets`.
pub fn search(params: &Params, markets: &[RawMarket]) -> (r: Result<Vec<Symbol>, ServerError>)
    ensures
        r is Ok <==> (params.search_type@ == "spot"@ && params.exchange@ == "Bonfida"@),
        match r {
            Ok(symbols) => {
                let hits = search_hits(markets@, params.query@);
                &&& symbols@.len() == if hits.len() < params.limit {
                    hits.len() as int
                } else {
                    params.limit as int
                }
                &&& forall|j: int|
                    0 <= j < symbols@.len() ==> symbol_describes(#[trigger] symbols@[j], hits[j])
                &&& forall|j: int|
                    0 <= j < symbols@.len() ==> presents_hit(
                        #[trigger] symbols@[j],
                        markets@,
                        params.query@,
                    )
                &&& symbols@.len() < params.limit ==> forall|k: int|
                    0 <= k < markets@.len() && (occurs_in(params.query@, markets@[k].name@)
                        || occurs_in(markets@[k].name@, params.query@) || occurs_in(
                        params.query@,
                        markets@[k].address@,
                    )) ==> presented_in(symbols@, #[trigger] markets@[k])
            },
            Err(e) => e == ServerError::WrongParameters,
        },
{
    if !text_eq(params.search_type.as_str(), "spot") {
        return Err(ServerError::WrongParameters);
    }
    if !text_eq(params.exchange.as_str(), "Bonfida") {
        return Err(ServerError::WrongParameters);
    }
    let query = params.query.as_str();
    let mut symbols: Vec<Symbol> = Vec::new();
    let n = markets.len();
    for i in 0..n
        invariant
            n == markets@.len(),
            query@ == params.query@,
            symbols@.len() == if search_hits(markets@.take(i as int), query@).len() < params.limit {
                search_hits(markets@.take(i as int), query@).len() as int
            } else {
                params.limit as int
            },
            forall|j: int|
                0 <= j < symbols@.len() ==> symbol_describes(
                    #[trigger] symbols@[j],
                    search_hits(markets@.take(i as int), query@)[j],
                ),
    {
        let m = &markets[i];
        let hit = contains_text(m.name.as_str(), query) || contains_text(query, m.name.as_str())
            || contains_text(m.address.as_str(), query);
        proof {
            reveal_with_fuel(Seq::<_>::filter, 1);
            assert(markets@.take(i + 1).drop_last() =~= markets@.take(i as int));
        }
        if hit && symbols.len() < params.limit as usize {
            symbols.push(market_symbol(m));
        }
    }
    proof {
        assert(markets@.take(n as int) =~= markets@);
        let hits = search_hits(markets@, query@);
        let pred = |m: RawMarket| search_hit(m, query@);
        assert forall|j: int| 0 <= j < symbols@.len() implies presents_hit(
            #[trigger] symbols@[j],
            markets@,
            params.query@,
        ) by {
            markets@.lemma_filter_pred(pred, j);
            assert(hits.contains(hits[j]));
            markets@.lemma_filter_contains_rev(pred, hits[j]);
            let k = choose|k: int| 0 <= k < markets@.len() && markets@[k] == hits[j];
            assert(symbol_describes(symbols@[j], markets@[k]));
        }
        if symbols@.len() < params.limit {
            assert forall|k: int|
                0 <= k < markets@.len() && (occurs_in(params.query@, markets@[k].name@)
                    || occurs_in(markets@[k].name@, params.query@) || occurs_in(
                    params.query@,
                    markets@[k].address@,
                )) implies presented_in(symbols@, #[trigger] markets@[k]) by {
                assert(search_hit(markets@[k], query@));
                markets@.lemma_filter_contains(pred, k);
                let j = choose|j: int| 0 <= j < hits.len() && hits[j] == markets@[k];
                assert(symbol_describes(symbols@[j], markets@[k]));
            }
        }
    }
    Ok(symbols)
}

} // verus!
