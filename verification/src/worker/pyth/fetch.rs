use vstd::prelude::*;
use crate::worker::candles::{Candle, CandleCommit, FetchOutcome, sampled_at};
use crate::worker::error::WorkerError;
use vstd::arithmetic::power::pow;
use crate::worker::utils::markets::PythFeed;
use crate::worker::utils::pubkey::{base58_pubkey, base58_text, pubkey_text};

verus! {

/// The current aggregate price of a Pyth price account, as `(price, expo)`
/// for the value `price * 10^expo`, that `pyth_sdk_solana` reads from the
/// account's data (`load_price_account`, then `to_price_feed` and
/// `get_current_price`); `None` where the data is not a price account or the
/// feed is not trading.
pub uninterp spec fn pyth_current_price(data: Seq<u8>) -> Option<(i64, i32)>;

/// Reads the current price of a Pyth price account with
/// `pyth_sdk_solana::state::load_price_account(..)`, `to_price_feed(..)` and
/// `get_current_price()`. The data is first copied into a buffer aligned for
/// the account's layout, so that the cast in `load_price_account` does not
/// panic on misaligned data.
///
/// Claimed of it: the result is a function of the data (the clock read in
/// `to_price_feed` happens only on the on-chain target). Not stated: data
/// whose enum fields hold values that the enums do not have is read through
/// pyth-sdk's `Pod` cast, which is undefined behaviour there.
#[verifier::external_body]
fn current_pyth_price(account_data: &[u8]) -> (price: Option<(i64, i32)>)
    ensures
        price == pyth_current_price(account_data@),
{
    let mut words: Vec<u64> = vec![0u64; account_data.len()];
    let aligned = &mut bytemuck::cast_slice_mut::<u64, u8>(&mut words)[..account_data.len()];
    aligned.copy_from_slice(account_data);
    match pyth_sdk_solana::state::load_price_account(aligned) {
        Ok(account) => account
            .to_price_feed(&solana_program::pubkey::Pubkey::default())
            .get_current_price()
            .map(|p| (p.price, p.expo)),
        Err(_) => None,
    }
}

/// Ten to the power `n`.
pub open spec fn pow10(n: nat) -> nat
    decreases n,
{
    if n == 0 {
        1
    } else {
        10 * pow10((n - 1) as nat)
    }
}

proof fn lemma_pow10_monotone(m: nat, n: nat)
    requires
        m <= n,
    ensures
        pow10(m) <= pow10(n),
    decreases n - m,
{
    if m < n {
        lemma_pow10_monotone(m, (n - 1) as nat);
    }
}

proof fn lemma_pow10_u128_limit()
    ensures
        pow10(38) <= u128::MAX,
        pow10(39) > u128::MAX,
{
    reveal_with_fuel(pow10, 40);
}

/// Ten to the power `n` in 128 bits; `None` from 39 on, where it overflows.
fn checked_pow10(n: u32) -> (r: Option<u128>)
    ensures
        match r {
            Some(v) => n <= 38 && v == pow10(n as nat) && v >= 1,
            None => n > 38,
        },
{
    let mut acc: u128 = 1;
    let mut i: u32 = 0;
    while i < n
        invariant
            i <= n,
            acc == pow10(i as nat),
            acc >= 1,
        decreases n - i,
    {
        match acc.checked_mul(10) {
            Some(next) => acc = next,
            None => {
                proof {
                    lemma_pow10_u128_limit();
                    if i + 1 <= 38 {
                        lemma_pow10_monotone((i + 1) as nat, 38);
                    }
                }
                return None;
            },
        }
        i = i + 1;
    }
    proof {
        lemma_pow10_u128_limit();
        if n > 38 {
            lemma_pow10_monotone(39, n as nat);
        }
    }
    Some(acc)
}

/// `price` as the source's `(price as u128) << 32`: the two's complement
/// value in 128 bits, moved up 32 bits, with the bits that leave dropped.
pub open spec fn shifted_price(price: i64) -> int {
    ((price as u128) as int % 0x1_0000_0000_0000_0000_0000_0000) * 0x1_0000_0000
}

/// `price * 10^expo` in 32.32 fixed point, computed in 128 bits as
/// `bonfida_utils::pyth::get_oracle_price_fp32` computes it; `None` where one
/// of its steps overflows (where the source panics).
pub open spec fn scaled_price(price: i64, expo: i32) -> Option<int> {
    let s = shifted_price(price);
    if expo > 0 {
        if expo <= 38 && s * pow10(expo as nat) <= u128::MAX {
            Some(s * pow10(expo as nat))
        } else {
            None
        }
    } else if -expo <= 38 {
        Some(s / pow10((-expo) as nat) as int)
    } else {
        None
    }
}

/// The 32.32 fixed-point price of a Pyth price `price * 10^expo`, converted
/// between tokens of `base_decimals` and `quote_decimals` decimals (times
/// `10^quote_decimals / 10^base_decimals`), as
/// `bonfida_utils::pyth::get_oracle_price_fp32` computes it; `None` where the
/// source panics: a 128-bit overflow, or a result that does not fit in 64 bits.
pub open spec fn fp32_price(price: i64, expo: i32, base_decimals: u8, quote_decimals: u8) -> Option<u64> {
    match scaled_price(price, expo) {
        Some(p) => {
            let q = p * pow10(quote_decimals as nat);
            if quote_decimals <= 38 && q <= u128::MAX && base_decimals <= 38 && q / pow10(
                base_decimals as nat,
            ) as int <= u64::MAX {
                Some((q / pow10(base_decimals as nat) as int) as u64)
            } else {
                None
            }
        },
        None => None,
    }
}

proof fn lemma_pow10_is_pow(n: nat)
    ensures
        pow10(n) == pow(10, n),
        pow(10, n) >= 1,
    decreases n,
{
    reveal(pow);
    if n > 0 {
        lemma_pow10_is_pow((n - 1) as nat);
    }
}

proof fn lemma_shift_is_product(v: u128)
    ensures
        (v % 0x1_0000_0000_0000_0000_0000_0000) * 0x1_0000_0000 == (v << 32u128) as int,
{
    assert((v % 0x1_0000_0000_0000_0000_0000_0000u128) * 0x1_0000_0000u128 == v << 32u128) by (bit_vector);
}

/// The fixed-point price of a Pyth price: the price in 128 bits moved up 32
/// bits (`(price as u128) << 32`), scaled by `10^expo` (a product for a
/// positive exponent, a quotient rounded down otherwise), then times
/// `10^quote_decimals` and divided by `10^base_decimals`, rounded down,
/// whatever the sign of the exponent. There is a price exactly when no step
/// overflows 128 bits (a power of ten up to `10^38`) and the result fits in
/// 64 bits.
pub proof fn fp32_price_scales_by_decimals(price: i64, expo: i32, base_decimals: u8, quote_decimals: u8)
    ensures
        ({
            let s = ((price as u128) << 32u128) as int;
            let v = if expo > 0 {
                s * pow(10, expo as nat)
            } else {
                s / pow(10, (-expo) as nat)
            };
            let q = v * pow(10, quote_decimals as nat);
            let r = q / pow(10, base_decimals as nat);
            let fits = (if expo > 0 {
                expo <= 38 && v <= u128::MAX
            } else {
                -expo <= 38
            }) && quote_decimals <= 38 && base_decimals <= 38 && q <= u128::MAX && r <= u64::MAX;
            &&& fits <==> fp32_price(price, expo, base_decimals, quote_decimals) is Some
            &&& fits ==> fp32_price(price, expo, base_decimals, quote_decimals) == Some(r as u64)
        }),
{
    lemma_shift_is_product(price as u128);
    if expo > 0 {
        lemma_pow10_is_pow(expo as nat);
    } else {
        lemma_pow10_is_pow((-expo) as nat);
    }
    lemma_pow10_is_pow(quote_decimals as nat);
    lemma_pow10_is_pow(base_decimals as nat);
}

/// Converts a Pyth price `price * 10^expo` into 32.32 fixed point between
/// tokens of `base_decimals` and `quote_decimals` decimals; `None` where the
/// 128-bit computation overflows or the result does not fit in 64 bits.
pub fn price_fp32(price: i64, expo: i32, base_decimals: u8, quote_decimals: u8) -> (r: Option<u64>)
    ensures
        r == fp32_price(price, expo, base_decimals, quote_decimals),
        ({
            let s = ((price as u128) << 32u128) as int;
            let v = if expo > 0 {
                s * pow(10, expo as nat)
            } else {
                s / pow(10, (-expo) as nat)
            };
            let q = v * pow(10, quote_decimals as nat);
            let m = q / pow(10, base_decimals as nat);
            let fits = (if expo > 0 {
                expo <= 38 && v <= u128::MAX
            } else {
                -expo <= 38
            }) && quote_decimals <= 38 && base_decimals <= 38 && q <= u128::MAX && m <= u64::MAX;
            &&& fits <==> r is Some
            &&& fits ==> r == Some(m as u64)
        }),
{
    proof {
        fp32_price_scales_by_decimals(price, expo, base_decimals, quote_decimals);
    }
    let v = #[verifier::truncate] (price as u128);
    let low = v % 0x1_0000_0000_0000_0000_0000_0000u128;
    assert(low * 0x1_0000_0000 <= u128::MAX) by (nonlinear_arith)
        requires
            low < 0x1_0000_0000_0000_0000_0000_0000,
    ;
    let shifted = low * 0x1_0000_0000u128;
    assert(shifted == v << 32u128) by (bit_vector)
        requires
            low == v % 0x1_0000_0000_0000_0000_0000_0000u128,
            shifted == low * 0x1_0000_0000u128,
    ;
    let scaled = if expo > 0 {
        let p = match checked_pow10(expo as u32) {
            Some(p) => p,
            None => return None,
        };
        match shifted.checked_mul(p) {
            Some(x) => x,
            None => return None,
        }
    } else {
        if expo < -38 {
            return None;
        }
        let p = match checked_pow10((-expo) as u32) {
            Some(p) => p,
            None => return None,
        };
        shifted / p
    };
    let q = match checked_pow10(quote_decimals as u32) {
        Some(q) => q,
        None => return None,
    };
    let corrected = match scaled.checked_mul(q) {
        Some(x) => x,
        None => return None,
    };
    let b = match checked_pow10(base_decimals as u32) {
        Some(b) => b,
        None => return None,
    };
    let corrected = corrected / b;
    if corrected > 0xFFFF_FFFF_FFFF_FFFFu128 {
        None
    } else {
        Some(corrected as u64)
    }
}

/// The price that the account of `feed` gives, if it is there and gives one.
pub open spec fn feed_price(feed: PythFeed, account: Option<Vec<u8>>) -> Option<u64> {
    match account {
        Some(data) => match pyth_current_price(data@) {
            Some((price, expo)) => fp32_price(price, expo, feed.base_decimals, feed.quote_decimals),
            None => None,
        },
        None => None,
    }
}

/// The positions, among the first `n`, of the feeds whose account gives a price.
pub open spec fn priced_feeds(feeds: Seq<PythFeed>, accounts: Seq<Option<Vec<u8>>>, n: nat) -> Seq<int>
    decreases n,
{
    if n == 0 {
        Seq::empty()
    } else {
        let before = priced_feeds(feeds, accounts, (n - 1) as nat);
        if feed_price(feeds[n - 1], accounts[n - 1]) is Some {
            before.push(n - 1)
        } else {
            before
        }
    }
}

/// The priced feeds among the first `n` are the positions, in increasing
/// order, of exactly the feeds whose account gives a price.
pub proof fn priced_feeds_are_the_priced(feeds: Seq<PythFeed>, accounts: Seq<Option<Vec<u8>>>, n: nat)
    ensures
        forall|j: int|
            0 <= j < priced_feeds(feeds, accounts, n).len() ==> {
                let k = #[trigger] priced_feeds(feeds, accounts, n)[j];
                &&& 0 <= k < n
                &&& feed_price(feeds[k], accounts[k]) is Some
            },
        forall|j1: int, j2: int|
            0 <= j1 < j2 < priced_feeds(feeds, accounts, n).len() ==> #[trigger] priced_feeds(
                feeds,
                accounts,
                n,
            )[j1] < #[trigger] priced_feeds(feeds, accounts, n)[j2],
        forall|k: int|
            0 <= k < n && (#[trigger] feed_price(feeds[k], accounts[k])) is Some ==> priced_feeds(
                feeds,
                accounts,
                n,
            ).contains(k),
    decreases n,
{
    if n > 0 {
        priced_feeds_are_the_priced(feeds, accounts, (n - 1) as nat);
        let before = priced_feeds(feeds, accounts, (n - 1) as nat);
        let now_ = priced_feeds(feeds, accounts, n);
        assert forall|k: int|
            0 <= k < n && (#[trigger] feed_price(feeds[k], accounts[k])) is Some implies now_.contains(k) by {
            if k < n - 1 {
                assert(before.contains(k));
                let j = choose|j: int| 0 <= j < before.len() && before[j] == k;
                assert(now_[j] == k);
            } else {
                assert(now_[now_.len() - 1] == k);
            }
        }
    }
}

/// The accounts before position `n` are all there, and the round stops at
/// `n`: the end, or the first missing account.
pub open spec fn stops_at(accounts: Seq<Option<Vec<u8>>>, n: int) -> bool {
    &&& 0 <= n <= accounts.len()
    &&& forall|k: int| 0 <= k < n ==> #[trigger] accounts[k] is Some
    &&& n < accounts.len() ==> accounts[n] is None
}

/// `c` stores the price of `feed` read from `account`, sampled at `now`.
pub open spec fn feed_commit(c: CandleCommit, feed: PythFeed, account: Option<Vec<u8>>, now: u64) -> bool {
    &&& feed_price(feed, account) is Some
    &&& sampled_at(c.candle, feed_price(feed, account).unwrap(), now)
    &&& c.address@ == base58_text(feed.address@)
    &&& base58_pubkey(c.address@) == Some(feed.address@)
    &&& c.name@ == feed.name@
}

/// `commits` store, in order, the prices of the feeds among the first `n`
/// whose account gives one.
pub open spec fn feed_commits(
    commits: Seq<CandleCommit>,
    feeds: Seq<PythFeed>,
    accounts: Seq<Option<Vec<u8>>>,
    n: nat,
    now: u64,
) -> bool {
    let idx = priced_feeds(feeds, accounts, n);
    &&& commits.len() == idx.len()
    &&& forall|j: int|
        0 <= j < commits.len() ==> feed_commit(
            #[trigger] commits[j],
            feeds[idx[j]],
            accounts[idx[j]],
            now,
        )
}

/// One round of index sampling, given the accounts of the feeds (`None` for an
/// account that is not there). The round goes through the feeds in order: a
/// missing account stops it with `AccountNotFound`; a feed whose price cannot
/// be read (it is not trading, or its price does not fit) is skipped; every
/// other feed gets a candle of its price, sampled at `now` (seconds since the
/// Unix epoch).
pub fn index_candles(markets: &[PythFeed], raw_accounts: &[Option<Vec<u8>>], now: u64) -> (out: FetchOutcome)
    requires
        raw_accounts@.len() <= markets@.len(),
    ensures
        exists|n: int|
            stops_at(raw_accounts@, n) && feed_commits(
                out.commits@,
                markets@,
                raw_accounts@,
                n as nat,
                now,
            ) && (out.error == if n < raw_accounts@.len() {
                Some(WorkerError::AccountNotFound)
            } else {
                None::<WorkerError>
            }),
{
    let mut commits: Vec<CandleCommit> = Vec::new();
    let n = raw_accounts.len();
    for i in 0..n
        invariant
            n == raw_accounts@.len(),
            n <= markets@.len(),
            forall|k: int| 0 <= k < i ==> #[trigger] raw_accounts@[k] is Some,
            feed_commits(commits@, markets@, raw_accounts@, i as nat, now),
    {
        let feed = &markets[i];
        match &raw_accounts[i] {
            None => {
                assert(stops_at(raw_accounts@, i as int));
                return FetchOutcome { commits, error: Some(WorkerError::AccountNotFound) };
            },
            Some(data) => {
                let price = match current_pyth_price(data.as_slice()) {
                    Some((p, e)) => price_fp32(p, e, feed.base_decimals, feed.quote_decimals),
                    None => None,
                };
                proof {
                    assert(priced_feeds(markets@, raw_accounts@, (i + 1) as nat) == if feed_price(
                        markets@[i as int],
                        raw_accounts@[i as int],
                    ) is Some {
                        priced_feeds(markets@, raw_accounts@, i as nat).push(i as int)
                    } else {
                        priced_feeds(markets@, raw_accounts@, i as nat)
                    });
                }
                match price {
                    Some(p) => {
                        let commit = CandleCommit {
                            candle: Candle::new(p, now),
                            address: pubkey_text(&feed.address),
                            name: feed.name.clone(),
                        };
                        commits.push(commit);
                    },
                    None => {},
                }
            },
        }
    }
    assert(stops_at(raw_accounts@, n as int));
    FetchOutcome { commits, error: None }
}

} // verus!
