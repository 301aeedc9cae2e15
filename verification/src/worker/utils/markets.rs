use vstd::prelude::*;
use crate::worker::utils::pubkey::{base58_pubkey, parse_pubkey};

verus! {

/// A market as the markets file describes it.
pub struct RawMarket {
    pub name: String,
    pub address: String,
    pub is_pyth: bool,
    pub base_decimals: u8,
    pub quote_decimals: u8,
}

/// An order book market, with the accounts that hold its two sides.
pub struct AobMarket {
    pub name: String,
    pub address: [u8; 32],
    pub bids_address: [u8; 32],
    pub asks_address: [u8; 32],
    pub callback_info_len: u64,
}

/// A Pyth price feed.
pub struct PythFeed {
    pub name: String,
    pub address: [u8; 32],
    pub base_decimals: u8,
    pub quote_decimals: u8,
}

/// What the state account of an order book market tells the worker: the
/// accounts of its two sides, and the length of the callback information
/// stored with each order.
pub struct MarketState {
    pub bids: [u8; 32],
    pub asks: [u8; 32],
    pub callback_info_len: u64,
}

/// The Pyth feeds among `markets`, in their order.
pub open spec fn pyth_markets(markets: Seq<RawMarket>) -> Seq<RawMarket> {
    markets.filter(is_pyth_market())
}

/// Whether a market is a Pyth feed.
pub open spec fn is_pyth_market() -> spec_fn(RawMarket) -> bool {
    |m: RawMarket| m.is_pyth
}

/// Whether a market is an order book market.
pub open spec fn is_aob_market() -> spec_fn(RawMarket) -> bool {
    |m: RawMarket| !m.is_pyth
}

/// The order book markets among `markets`, in their order.
pub open spec fn aob_markets_of(markets: Seq<RawMarket>) -> Seq<RawMarket> {
    markets.filter(is_aob_market())
}

/// `feed` is the Pyth feed that the market `m` describes.
pub open spec fn feed_of(feed: PythFeed, m: RawMarket) -> bool {
    &&& feed.name@ == m.name@
    &&& base58_pubkey(m.address@) == Some(feed.address@)
    &&& feed.base_decimals == m.base_decimals
    &&& feed.quote_decimals == m.quote_decimals
}

/// `a` and `b` describe the same market.
pub open spec fn same_market(a: RawMarket, b: RawMarket) -> bool {
    &&& a.name@ == b.name@
    &&& a.address@ == b.address@
    &&& a.is_pyth == b.is_pyth
    &&& a.base_decimals == b.base_decimals
    &&& a.quote_decimals == b.quote_decimals
}

/// Every address in `markets` is a valid base-58 key.
pub open spec fn addresses_valid(markets: Seq<RawMarket>) -> bool {
    forall|i: int| 0 <= i < markets.len() ==> #[trigger] base58_pubkey(markets[i].address@) is Some
}

/// The Pyth markets are exactly the markets marked as Pyth feeds, and the
/// order book markets exactly the others.
pub proof fn markets_split_by_kind(markets: Seq<RawMarket>)
    ensures
        forall|j: int| 0 <= j < pyth_markets(markets).len() ==> (#[trigger] pyth_markets(markets)[j]).is_pyth,
        forall|j: int| 0 <= j < aob_markets_of(markets).len() ==> !(#[trigger] aob_markets_of(markets)[j]).is_pyth,
        forall|i: int| 0 <= i < markets.len() && markets[i].is_pyth ==> #[trigger] pyth_markets(markets).contains(markets[i]),
        forall|i: int| 0 <= i < markets.len() && !markets[i].is_pyth ==> #[trigger] aob_markets_of(markets).contains(markets[i]),
{
    assert forall|j: int| 0 <= j < pyth_markets(markets).len() implies (#[trigger] pyth_markets(markets)[j]).is_pyth by {
        markets.lemma_filter_pred(is_pyth_market(), j);
    }
    assert forall|j: int| 0 <= j < aob_markets_of(markets).len() implies !(#[trigger] aob_markets_of(markets)[j]).is_pyth by {
        markets.lemma_filter_pred(is_aob_market(), j);
    }
    assert forall|i: int| 0 <= i < markets.len() && markets[i].is_pyth implies #[trigger] pyth_markets(markets).contains(markets[i]) by {
        markets.lemma_filter_contains(is_pyth_market(), i);
    }
    assert forall|i: int| 0 <= i < markets.len() && !markets[i].is_pyth implies #[trigger] aob_markets_of(markets).contains(markets[i]) by {
        markets.lemma_filter_contains(is_aob_market(), i);
    }
}

/// A copy of a market.
pub fn copy_market(m: &RawMarket) -> (c: RawMarket)
    ensures
        same_market(c, *m),
{
    RawMarket {
        name: m.name.clone(),
        address: m.address.clone(),
        is_pyth: m.is_pyth,
        base_decimals: m.base_decimals,
        quote_decimals: m.quote_decimals,
    }
}

/// The Pyth feeds that `markets` describe, in their order; `None` when the
/// address of one of them is not a valid key.
pub fn pyth_feeds(markets: &[RawMarket]) -> (r: Option<Vec<PythFeed>>)
    ensures
        r is Some <==> addresses_valid(pyth_markets(markets@)),
        match r {
            Some(feeds) => {
                &&& feeds@.len() == pyth_markets(markets@).len()
                &&& forall|j: int|
                    0 <= j < feeds@.len() ==> feed_of(#[trigger] feeds@[j], pyth_markets(markets@)[j])
            },
            None => true,
        },
{
    let mut feeds: Vec<PythFeed> = Vec::new();
    let n = markets.len();
    for i in 0..n
        invariant
            n == markets@.len(),
            feeds@.len() == pyth_markets(markets@.take(i as int)).len(),
            addresses_valid(pyth_markets(markets@.take(i as int))),
            forall|j: int|
                0 <= j < feeds@.len() ==> feed_of(
                    #[trigger] feeds@[j],
                    pyth_markets(markets@.take(i as int))[j],
                ),
    {
        proof {
            reveal_with_fuel(Seq::<_>::filter, 1);
            assert(markets@.take(i + 1).drop_last() =~= markets@.take(i as int));
        }
        let m = &markets[i];
        if m.is_pyth {
            match parse_pubkey(m.address.as_str()) {
                Some(address) => {
                    feeds.push(
                        PythFeed {
                            name: m.name.clone(),
                            address,
                            base_decimals: m.base_decimals,
                            quote_decimals: m.quote_decimals,
                        },
                    );
                },
                None => {
                    proof {
                        markets@.lemma_filter_contains(is_pyth_market(), i as int);
                        let k = choose|k: int|
                            0 <= k < pyth_markets(markets@).len() && pyth_markets(markets@)[k]
                                == markets@[i as int];
                        assert(base58_pubkey(pyth_markets(markets@)[k].address@) is None);
                    }
                    return None;
                },
            }
        }
    }
    proof {
        assert(markets@.take(n as int) =~= markets@);
    }
    Some(feeds)
}

/// Copies of the order book markets among `markets`, in their order.
pub fn aob_raw_markets(markets: &[RawMarket]) -> (r: Vec<RawMarket>)
    ensures
        r@.len() == aob_markets_of(markets@).len(),
        forall|j: int| 0 <= j < r@.len() ==> same_market(#[trigger] r@[j], aob_markets_of(markets@)[j]),
{
    let mut r: Vec<RawMarket> = Vec::new();
    let n = markets.len();
    for i in 0..n
        invariant
            n == markets@.len(),
            r@.len() == aob_markets_of(markets@.take(i as int)).len(),
            forall|j: int|
                0 <= j < r@.len() ==> same_market(
                    #[trigger] r@[j],
                    aob_markets_of(markets@.take(i as int))[j],
                ),
    {
        proof {
            reveal_with_fuel(Seq::<_>::filter, 1);
            assert(markets@.take(i + 1).drop_last() =~= markets@.take(i as int));
        }
        if !markets[i].is_pyth {
            r.push(copy_market(&markets[i]));
        }
    }
    proof {
        assert(markets@.take(n as int) =~= markets@);
    }
    r
}

/// The keys of the markets' addresses, in their order; `None` when one of
/// them is not a valid key.
pub fn market_addresses(markets: &[RawMarket]) -> (r: Option<Vec<[u8; 32]>>)
    ensures
        r is Some <==> addresses_valid(markets@),
        match r {
            Some(keys) => {
                &&& keys@.len() == markets@.len()
                &&& forall|j: int|
                    0 <= j < keys@.len() ==> base58_pubkey(markets@[j].address@) == Some(
                        (#[trigger] keys@[j])@,
                    )
            },
            None => true,
        },
{
    let mut keys: Vec<[u8; 32]> = Vec::new();
    let n = markets.len();
    for i in 0..n
        invariant
            n == markets@.len(),
            keys@.len() == i,
            forall|j: int|
                0 <= j < i ==> base58_pubkey(markets@[j].address@) == Some((#[trigger] keys@[j])@),
    {
        match parse_pubkey(markets[i].address.as_str()) {
            Some(key) => keys.push(key),
            None => {
                assert(base58_pubkey(markets@[i as int].address@) is None);
                return None;
            },
        }
    }
    assert forall|i: int| 0 <= i < markets@.len() implies #[trigger] base58_pubkey(
        markets@[i].address@,
    ) is Some by {
        assert(base58_pubkey(markets@[i].address@) == Some(keys@[i]@));
    }
    Some(keys)
}

/// `m` is the order book market named like `raw`, at `address`, whose state is
/// `state`.
pub open spec fn aob_market_of(m: AobMarket, raw: RawMarket, address: Seq<u8>, state: MarketState) -> bool {
    &&& m.name@ == raw.name@
    &&& m.address@ == address
    &&& m.bids_address@ == state.bids@
    &&& m.asks_address@ == state.asks@
    &&& m.callback_info_len == state.callback_info_len
}

/// The order book markets, one for each market state, taking the name and
/// the address of the market at the same position.
pub fn assemble_aob_markets(raw_markets: &[RawMarket], addresses: &[[u8; 32]], states: &[MarketState]) -> (r: Vec<AobMarket>)
    requires
        states@.len() <= raw_markets@.len(),
        states@.len() <= addresses@.len(),
    ensures
        r@.len() == states@.len(),
        forall|i: int|
            0 <= i < r@.len() ==> aob_market_of(
                #[trigger] r@[i],
                raw_markets@[i],
                addresses@[i]@,
                states@[i],
            ),
{
    let mut r: Vec<AobMarket> = Vec::new();
    let n = states.len();
    for i in 0..n
        invariant
            n == states@.len(),
            n <= raw_markets@.len(),
            n <= addresses@.len(),
            r@.len() == i,
            forall|j: int|
                0 <= j < i ==> aob_market_of(
                    #[trigger] r@[j],
                    raw_markets@[j],
                    addresses@[j]@,
                    states@[j],
                ),
    {
        let state = &states[i];
        r.push(
            AobMarket {
                name: raw_markets[i].name.clone(),
                address: addresses[i],
                bids_address: state.bids,
                asks_address: state.asks,
                callback_info_len: state.callback_info_len,
            },
        );
    }
    r
}

} // verus!
