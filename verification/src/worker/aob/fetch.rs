use vstd::prelude::*;
use crate::worker::candles::{Candle, CandleCommit, FetchOutcome, sampled_at};
use crate::worker::error::WorkerError;
use crate::worker::utils::markets::AobMarket;
use crate::worker::utils::pubkey::{base58_pubkey, base58_text, pubkey_text};

verus! {

/// The best orders found on the two sides of an order book, as 32.32
/// fixed-point prices (the first order of each side's tree).
#[derive(Copy, Clone, Debug, PartialEq, Eq, Structural)]
pub struct BookTop {
    pub best_bid: Option<u64>,
    pub best_ask: Option<u64>,
}

/// The price quoted for a book: the mean of the two sides, rounded down,
/// when both have orders; the one side's price when only one has; 0 for an
/// empty book.
pub open spec fn quote_price(top: BookTop) -> int {
    match (top.best_bid, top.best_ask) {
        (Some(bid), Some(ask)) => (bid + ask) / 2,
        (Some(x), None) => x as int,
        (None, Some(x)) => x as int,
        (None, None) => 0,
    }
}

/// The two sides of the book can be added in 64 bits.
pub open spec fn quote_fits(top: BookTop) -> bool {
    match (top.best_bid, top.best_ask) {
        (Some(bid), Some(ask)) => bid + ask <= u64::MAX,
        _ => true,
    }
}

/// The price quoted for a book.
pub fn mid_price(top: BookTop) -> (price: u64)
    requires
        quote_fits(top),
    ensures
        price == quote_price(top),
{
    match (top.best_bid, top.best_ask) {
        (Some(best_bid), Some(best_ask)) => (best_bid + best_ask) / 2,
        (Some(x), None) | (None, Some(x)) => x,
        (None, None) => 0,
    }
}

/// The quoted price lies between the two sides of the book.
pub proof fn quote_between_sides(top: BookTop)
    requires
        top.best_bid is Some,
        top.best_ask is Some,
    ensures
        top.best_bid.unwrap() <= quote_price(top) <= top.best_ask.unwrap() || top.best_ask.unwrap()
            <= quote_price(top) <= top.best_bid.unwrap(),
{
}

/// The quoted price of a book with both sides is their mean rounded down:
/// twice the quote is the sum of the two sides, or one less than it; a book
/// with one side is quoted at that side's price, and an empty book at 0.
pub proof fn quote_is_rounded_mean(top: BookTop)
    ensures
        match (top.best_bid, top.best_ask) {
            (Some(bid), Some(ask)) => 2 * quote_price(top) <= bid + ask < 2 * quote_price(top) + 2,
            (Some(bid), None) => quote_price(top) == bid,
            (None, Some(ask)) => quote_price(top) == ask,
            (None, None) => quote_price(top) == 0,
        },
{
}

/// The books before position `n` are all there, and the round stops at `n`:
/// the end, or the first book with a missing account.
pub open spec fn books_stop_at(tops: Seq<Option<BookTop>>, n: int) -> bool {
    &&& 0 <= n <= tops.len()
    &&& forall|k: int| 0 <= k < n ==> #[trigger] tops[k] is Some
    &&& n < tops.len() ==> tops[n] is None
}

/// Every book that the round reaches can be quoted in 64 bits.
pub open spec fn books_fit(tops: Seq<Option<BookTop>>) -> bool {
    forall|i: int|
        0 <= i < tops.len() && (forall|k: int| 0 <= k < i ==> #[trigger] tops[k] is Some)
            ==> (#[trigger] tops[i] matches Some(top) ==> quote_fits(top))
}

/// `c` stores the price quoted for `market`'s book `top`, sampled at `now`.
pub open spec fn book_commit(c: CandleCommit, market: AobMarket, top: BookTop, now: u64) -> bool {
    &&& sampled_at(c.candle, quote_price(top) as u64, now)
    &&& c.address@ == base58_text(market.address@)
    &&& base58_pubkey(c.address@) == Some(market.address@)
    &&& c.name@ == market.name@
}

/// One round of order book sampling, given the best orders of each market's
/// book (`None` where one of the two accounts of the book is not there). The
/// round goes through the markets in order: a missing account stops it with
/// `AccountNotFound`; every other market gets a candle of its quoted price,
/// sampled at `now` (seconds since the Unix epoch).
pub fn bbo_candles(markets: &[AobMarket], tops: &[Option<BookTop>], now: u64) -> (out: FetchOutcome)
    requires
        tops@.len() <= markets@.len(),
        books_fit(tops@),
    ensures
        exists|n: int|
            books_stop_at(tops@, n) && out.commits@.len() == n && (forall|j: int|
                0 <= j < n ==> book_commit(
                    #[trigger] out.commits@[j],
                    markets@[j],
                    tops@[j].unwrap(),
                    now,
                )) && (out.error == if n < tops@.len() {
                Some(WorkerError::AccountNotFound)
            } else {
                None::<WorkerError>
            }),
{
    let mut commits: Vec<CandleCommit> = Vec::new();
    let n = tops.len();
    for i in 0..n
        invariant
            n == tops@.len(),
            n <= markets@.len(),
            books_fit(tops@),
            forall|k: int| 0 <= k < i ==> #[trigger] tops@[k] is Some,
            commits@.len() == i,
            forall|j: int|
                0 <= j < i ==> book_commit(#[trigger] commits@[j], markets@[j], tops@[j].unwrap(), now),
    {
        match tops[i] {
            None => {
                assert(books_stop_at(tops@, i as int));
                return FetchOutcome { commits, error: Some(WorkerError::AccountNotFound) };
            },
            Some(top) => {
                assert(quote_fits(top));
                let market = &markets[i];
                let commit = CandleCommit {
                    candle: Candle::new(mid_price(top), now),
                    address: pubkey_text(&market.address),
                    name: market.name.clone(),
                };
                commits.push(commit);
            },
        }
    }
    assert(books_stop_at(tops@, n as int));
    FetchOutcome { commits, error: None }
}

} // verus!
