use candles::time::current_time;
use candles::worker::aob::fetch::{bbo_candles, mid_price, BookTop};
use candles::worker::candles::{next_step, Candle, CandleCommit, FetchOutcome, RoundStep};
use candles::worker::chunks::{chunk_ranges, MAX_ACCOUNT_CHUNK};
use candles::worker::db::{chunk_size_ms, sampling_interval_ms, ENTRY_SIZE};
use candles::worker::error::WorkerError;
use candles::worker::pyth::fetch::{index_candles, price_fp32};
use candles::worker::utils::markets::{
    aob_raw_markets, assemble_aob_markets, market_addresses, pyth_feeds, AobMarket, MarketState,
    PythFeed, RawMarket,
};

const FIDA_ADDRESS: &str = "ETp9eKXVv1dWwHSpsXRUuXHmw24PwRkttCGVgpZEY9zF";
const SOL_MINT: &str = "So11111111111111111111111111111111111111112";

fn raw(name: &str, address: &str, is_pyth: bool) -> RawMarket {
    RawMarket {
        name: name.to_string(),
        address: address.to_string(),
        is_pyth,
        base_decimals: 6,
        quote_decimals: 6,
    }
}

/// The data of a Pyth price account that trades at `price * 10^expo`.
fn price_account(price: i64, expo: i32, trading: bool) -> Vec<u8> {
    let mut d = vec![0u8; 3312];
    d[0..4].copy_from_slice(&0xa1b2c3d4u32.to_le_bytes()); // magic
    d[4..8].copy_from_slice(&2u32.to_le_bytes()); // version
    d[8..12].copy_from_slice(&3u32.to_le_bytes()); // price account
    d[12..16].copy_from_slice(&3312u32.to_le_bytes());
    d[16..20].copy_from_slice(&1u32.to_le_bytes()); // price type
    d[20..24].copy_from_slice(&expo.to_le_bytes());
    d[208..216].copy_from_slice(&price.to_le_bytes()); // aggregate price
    d[224..228].copy_from_slice(&(if trading { 1u32 } else { 2u32 }).to_le_bytes());
    d
}

#[test]
fn worker_error_texts() {
    assert_eq!(WorkerError::DeserializationError.message(), "Error deserializing data");
    assert_eq!(WorkerError::RpcError.message(), "Rpc error");
    assert_eq!(WorkerError::AccountNotFound.message(), "Account not found");
    assert_eq!(WorkerError::DbCommitError.message(), "Failed to commit account to database");
}

#[test]
fn candle_starts_on_the_minute() {
    let c = Candle::new(42, 125);
    assert_eq!((c.open, c.close, c.high, c.low, c.ts_start), (42, 42, 42, 42, 120));
    assert_eq!(Candle::new(1, 120).ts_start, 120);
    assert_eq!(Candle::new(1, 59).ts_start, 0);
    assert_eq!(Candle::new(1, 1_651_188_181).ts_start, 1_651_188_180);
    // A clock past i64::MAX reads as a negative instant, rounded toward zero.
    assert_eq!(Candle::new(1, u64::MAX - 60).ts_start, -60);
}

#[test]
fn clock_reads_after_2022() {
    assert!(current_time().unwrap() > 1_651_188_181);
}

#[test]
fn sampling_periods() {
    assert_eq!(sampling_interval_ms(10_000), Some(10_000));
    assert_eq!(sampling_interval_ms(1), Some(1));
    assert_eq!(sampling_interval_ms(0), None);
}

#[test]
fn fixed_point_prices() {
    // 1234.56 with 6 and 6 decimals.
    assert_eq!(price_fp32(123456, -2, 6, 6), Some(((123456u128 << 32) / 100) as u64));
    // 25000 from a positive exponent, 9 base decimals and 6 quote decimals.
    assert_eq!(price_fp32(2500, 1, 9, 6), Some((((2500u128 << 32) * 10) * 1_000_000 / 1_000_000_000) as u64));
    assert_eq!(price_fp32(1, 0, 0, 0), Some(1u64 << 32));
    // Results that do not fit in 64 bits.
    assert_eq!(price_fp32(1 << 32, 0, 0, 0), None);
    assert_eq!(price_fp32(1, 0, 0, 10), None);
    // Powers of ten past 10^38 overflow.
    assert_eq!(price_fp32(1, 39, 0, 0), None);
    assert_eq!(price_fp32(1, -39, 0, 0), None);
    assert_eq!(price_fp32(1, i32::MIN, 0, 0), None);
    assert_eq!(price_fp32(1, 0, 39, 0), None);
    assert_eq!(price_fp32(1, 0, 0, 39), None);
    // A product that overflows 128 bits.
    assert_eq!(price_fp32(1 << 40, 30, 0, 0), None);
    // A tiny price rounds down to 0.
    assert_eq!(price_fp32(1, -38, 0, 0), Some(0));
    // A negative price wraps as the source's `as u128` does, then the shift drops its high bits.
    let wrapped = (((-1i64) as u128) << 32) / 10u128.pow(38);
    assert_eq!(price_fp32(-1, -38, 0, 0), Some(wrapped as u64));
}

fn commit(price: u64) -> CandleCommit {
    CandleCommit { candle: Candle::new(price, 60), address: "a".to_string(), name: "n".to_string() }
}

#[test]
fn storing_a_round() {
    let out = FetchOutcome { commits: vec![commit(1), commit(2)], error: Some(WorkerError::AccountNotFound) };
    assert!(matches!(next_step(&out, 0, false), RoundStep::Write(0)));
    assert!(matches!(next_step(&out, 1, false), RoundStep::Write(1)));
    assert!(matches!(next_step(&out, 2, false), RoundStep::Done(Err(WorkerError::AccountNotFound))));
    assert!(matches!(next_step(&out, 1, true), RoundStep::Done(Err(WorkerError::DbCommitError))));
    let ok = FetchOutcome { commits: vec![], error: None };
    assert!(matches!(next_step(&ok, 0, false), RoundStep::Done(Ok(()))));
}

#[test]
fn chunk_size() {
    assert_eq!(ENTRY_SIZE, 112);
    // Fewer than 10 markets count as 10.
    assert_eq!(chunk_size_ms(1000, 16_000_000, 3), 1000 * 16_000_000 * 1024 / 112 / 10);
    assert_eq!(chunk_size_ms(1000, 16_000_000, 10), 1000 * 16_000_000 * 1024 / 112 / 10);
    assert_eq!(chunk_size_ms(1000, 16_000_000, 40), 1000 * 16_000_000 * 1024 / 112 / 40);
    assert_eq!(chunk_size_ms(0, 16_000_000, 40), 0);
}

#[test]
fn mid_prices() {
    let t = |b, a| BookTop { best_bid: b, best_ask: a };
    assert_eq!(mid_price(t(Some(4), Some(7))), 5);
    assert_eq!(mid_price(t(Some(9), None)), 9);
    assert_eq!(mid_price(t(None, Some(11))), 11);
    assert_eq!(mid_price(t(None, None)), 0);
    assert_eq!(mid_price(t(Some(u64::MAX - 1), Some(1))), u64::MAX / 2);
}

/// The key that an address reads as, through the library.
fn parse_pubkey(address: &str) -> Option<[u8; 32]> {
    market_addresses(&[raw("M", address, false)]).map(|keys| keys[0])
}

#[test]
fn addresses_read_as_keys() {
    let key = parse_pubkey(FIDA_ADDRESS).unwrap();
    assert_ne!(key, [0u8; 32]);
    let sol = parse_pubkey(SOL_MINT).unwrap();
    assert_eq!(sol[0], 0x06);
    assert_eq!(sol[31], 0x01);
    assert_eq!(parse_pubkey("11111111111111111111111111111111"), Some([0u8; 32]));
}

#[test]
fn addresses_refused() {
    assert_eq!(parse_pubkey("0OIl"), None); // not base 58
    assert_eq!(parse_pubkey("abc"), None); // too short
    assert_eq!(parse_pubkey(&format!("{}{}", FIDA_ADDRESS, FIDA_ADDRESS)), None);
    assert_eq!(parse_pubkey(""), None);
}

#[test]
fn committed_address_is_the_base58_key() {
    let markets = vec![
        AobMarket {
            name: "ZERO".to_string(),
            address: [0u8; 32],
            bids_address: [1u8; 32],
            asks_address: [2u8; 32],
            callback_info_len: 0,
        },
        aob_market("SOL", SOL_MINT),
    ];
    let tops = vec![Some(BookTop { best_bid: None, best_ask: None }); 2];
    let out = bbo_candles(&markets, &tops, 130);
    assert_eq!(out.commits[0].address, "11111111111111111111111111111111");
    assert_eq!(out.commits[1].address, SOL_MINT);
}

#[test]
fn pyth_feeds_from_markets() {
    let ms = vec![
        raw("FIDA-USDC-PYTH", FIDA_ADDRESS, true),
        raw("AOB", "not-a-key", false),
        raw("SOL-USDC-PYTH", SOL_MINT, true),
    ];
    let feeds = pyth_feeds(&ms).unwrap();
    assert_eq!(feeds.len(), 2);
    assert_eq!(feeds[0].name, "FIDA-USDC-PYTH");
    assert_eq!(feeds[0].address, parse_pubkey(FIDA_ADDRESS).unwrap());
    assert_eq!(feeds[1].name, "SOL-USDC-PYTH");
    assert_eq!((feeds[1].base_decimals, feeds[1].quote_decimals), (6, 6));
    let bad = vec![raw("X", "not-a-key", true)];
    assert!(pyth_feeds(&bad).is_none());
    assert_eq!(pyth_feeds(&[]).unwrap().len(), 0);
}

#[test]
fn aob_markets_from_states() {
    let ms = vec![
        raw("FIDA-USDC-PYTH", FIDA_ADDRESS, true),
        raw("SOL-AOB", SOL_MINT, false),
        raw("FIDA-AOB", FIDA_ADDRESS, false),
    ];
    let aob = aob_raw_markets(&ms);
    let names: Vec<&str> = aob.iter().map(|m| m.name.as_str()).collect();
    assert_eq!(names, vec!["SOL-AOB", "FIDA-AOB"]);
    let keys = market_addresses(&aob).unwrap();
    assert_eq!(keys[0], parse_pubkey(SOL_MINT).unwrap());
    assert!(market_addresses(&[raw("bad", "0OIl", false)]).is_none());
    let states = vec![
        MarketState { bids: [1u8; 32], asks: [2u8; 32], callback_info_len: 32 },
        MarketState { bids: [3u8; 32], asks: [4u8; 32], callback_info_len: 40 },
    ];
    let markets = assemble_aob_markets(&aob, &keys, &states);
    assert_eq!(markets.len(), 2);
    assert_eq!(markets[1].name, "FIDA-AOB");
    assert_eq!(markets[1].address, parse_pubkey(FIDA_ADDRESS).unwrap());
    assert_eq!(markets[1].bids_address, [3u8; 32]);
    assert_eq!(markets[1].asks_address, [4u8; 32]);
    assert_eq!(markets[1].callback_info_len, 40);
}

fn aob_market(name: &str, address: &str) -> AobMarket {
    AobMarket {
        name: name.to_string(),
        address: parse_pubkey(address).unwrap(),
        bids_address: [1u8; 32],
        asks_address: [2u8; 32],
        callback_info_len: 32,
    }
}

fn prices(out: &FetchOutcome) -> Vec<u64> {
    out.commits.iter().map(|c| c.candle.close).collect()
}

#[test]
fn bbo_round() {
    let markets = vec![aob_market("A", FIDA_ADDRESS), aob_market("B", SOL_MINT), aob_market("C", SOL_MINT)];
    let tops = vec![
        Some(BookTop { best_bid: Some(10), best_ask: Some(20) }),
        Some(BookTop { best_bid: None, best_ask: None }),
        Some(BookTop { best_bid: None, best_ask: Some(30) }),
    ];
    let out = bbo_candles(&markets, &tops, 130);
    assert!(out.error.is_none());
    assert_eq!(prices(&out), vec![15, 0, 30]);
    assert_eq!(out.commits[0].address, FIDA_ADDRESS);
    assert_eq!(out.commits[0].name, "A");
    assert_eq!(out.commits[2].name, "C");
    assert_eq!(out.commits[2].candle.ts_start, 120);
}

#[test]
fn bbo_round_stops_at_missing_account() {
    let markets = vec![aob_market("A", FIDA_ADDRESS), aob_market("B", SOL_MINT), aob_market("C", SOL_MINT)];
    let tops = vec![Some(BookTop { best_bid: Some(10), best_ask: None }), None, Some(BookTop { best_bid: Some(1), best_ask: Some(1) })];
    let out = bbo_candles(&markets, &tops, 130);
    assert_eq!(out.error, Some(WorkerError::AccountNotFound));
    assert_eq!(prices(&out), vec![10]);
}

fn feed(name: &str, address: &str, base: u8, quote: u8) -> PythFeed {
    PythFeed { name: name.to_string(), address: parse_pubkey(address).unwrap(), base_decimals: base, quote_decimals: quote }
}

#[test]
fn index_round() {
    let feeds = vec![
        feed("FIDA", FIDA_ADDRESS, 6, 6),
        feed("HALTED", SOL_MINT, 6, 6),
        feed("GARBAGE", SOL_MINT, 6, 6),
        feed("SOL", SOL_MINT, 9, 6),
    ];
    let accounts = vec![
        Some(price_account(123456, -2, true)),
        Some(price_account(5, 0, false)),
        Some(vec![1, 2, 3]),
        Some(price_account(2500, 1, true)),
    ];
    let out = index_candles(&feeds, &accounts, 130);
    assert!(out.error.is_none());
    let fida = ((123456u128 << 32) / 100) as u64;
    let sol = (((2500u128 << 32) * 10) * 1_000_000 / 1_000_000_000) as u64;
    assert_eq!(prices(&out), vec![fida, sol]);
    assert_eq!(out.commits[0].name, "FIDA");
    assert_eq!(out.commits[0].address, FIDA_ADDRESS);
    assert_eq!(out.commits[1].name, "SOL");
    assert_eq!(out.commits[1].address, SOL_MINT);
}

#[test]
fn index_round_stops_at_missing_account() {
    let feeds = vec![feed("FIDA", FIDA_ADDRESS, 6, 6), feed("SOL", SOL_MINT, 6, 6), feed("X", SOL_MINT, 6, 6)];
    let accounts = vec![Some(price_account(100, 0, true)), None, Some(price_account(7, 0, true))];
    let out = index_candles(&feeds, &accounts, 130);
    assert_eq!(out.error, Some(WorkerError::AccountNotFound));
    assert_eq!(prices(&out), vec![100u64 << 32]);
    let out = index_candles(&feeds, &[], 130);
    assert!(out.error.is_none() && out.commits.is_empty());
}

#[test]
fn account_chunks() {
    assert_eq!(MAX_ACCOUNT_CHUNK, 100);
    assert_eq!(chunk_ranges(0, 100), vec![]);
    assert_eq!(chunk_ranges(5, 100), vec![(0, 5)]);
    assert_eq!(chunk_ranges(100, 100), vec![(0, 100)]);
    assert_eq!(chunk_ranges(250, 100), vec![(0, 100), (100, 200), (200, 250)]);
    let v: Vec<u32> = (0..250).collect();
    let ours: Vec<Vec<u32>> = chunk_ranges(v.len(), 100).iter().map(|(a, b)| v[*a..*b].to_vec()).collect();
    let std_chunks: Vec<Vec<u32>> = v.chunks(100).map(|c| c.to_vec()).collect();
    assert_eq!(ours, std_chunks);
}
