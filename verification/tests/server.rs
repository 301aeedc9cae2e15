use candles::server::endpoints::tradingview::history::{history_request, Params as HistoryParams};
use candles::server::endpoints::tradingview::info::{symbols_info as info_symbols_info, Params as InfoParams};
use candles::server::endpoints::tradingview::search::{search, Params as SearchParams};
use candles::server::endpoints::tradingview::symbols::{symbols_info, Params as SymbolParams};
use candles::server::error::ServerError;
use candles::server::structs::candles::Candle;
use candles::server::structs::raw_market::{find_market, RawMarket};
use candles::server::structs::tradingview::{
    supported_resolutions, tradingview_config, Bar, Resolution, SymbolInfo,
};
use candles::server::utils::db::make_query;
use candles::server::utils::market_name::validate_market_name;
use candles::server::utils::markets::valid_market;
use candles::text::{contains_text, text_eq};

const FIDA_ADDRESS: &str = "ETp9eKXVv1dWwHSpsXRUuXHmw24PwRkttCGVgpZEY9zF";

fn market(name: &str, address: &str, min_mov: f64, price_scale: f64) -> RawMarket {
    RawMarket {
        name: name.to_string(),
        address: address.to_string(),
        is_pyth: true,
        base_decimals: 6,
        quote_decimals: 6,
        min_mov: min_mov.to_bits(),
        price_scale: price_scale.to_bits(),
    }
}

fn markets() -> Vec<RawMarket> {
    vec![
        market("FIDA-USDC-PYTH", FIDA_ADDRESS, 1.0, 100.0),
        market("SOL-USDC", "So11111111111111111111111111111111111111112", 1.0, 1000.0),
        market("FIDA-USDC", "FidaAddress", 2.0, 10.0),
    ]
}

const ALL_TEXTS: [&str; 13] = ["1", "3", "5", "15", "30", "60", "120", "240", "360", "480", "720", "960", "D"];

#[test]
fn resolution_texts_follow_tradingview() {
    let texts: Vec<&str> = supported_resolutions().iter().map(|r| r.as_str()).collect();
    assert_eq!(texts, ALL_TEXTS.to_vec());
}

#[test]
fn resolution_round_trip() {
    for r in supported_resolutions() {
        assert_eq!(Resolution::from_str(r.as_str()), Ok(r));
    }
    assert_eq!(Resolution::from_str("15"), Ok(Resolution::FifteenMinutes));
    assert_eq!(Resolution::from_str("D"), Ok(Resolution::OneDay));
}

#[test]
fn resolution_rejects_unknown_text() {
    assert_eq!(Resolution::from_str("2"), Err(()));
    assert_eq!(Resolution::from_str(""), Err(()));
    assert_eq!(Resolution::from_str("1D"), Err(()));
    assert_eq!(Resolution::from_str("d"), Err(()));
    assert_eq!(Resolution::from_str("15 "), Err(()));
}

#[test]
fn resolution_intervals() {
    assert_eq!(Resolution::OneMinute.to_interval(), "1 minutes");
    assert_eq!(Resolution::FifteenMinutes.to_interval(), "15 minutes");
    assert_eq!(Resolution::SixteenHours.to_interval(), "960 minutes");
    assert_eq!(Resolution::OneDay.to_interval(), "1440 minutes");
}

#[test]
fn query_buckets_by_resolution() {
    let q = make_query(Resolution::FiveMinutes);
    assert!(q.contains("time_bucket('5 minutes', timestamp) as ts_start"));
    assert!(q.starts_with("\n            SELECT\n"));
    assert!(q.ends_with("ORDER BY\n                ts_start\n"));
    let d = make_query(Resolution::OneDay);
    assert!(d.contains("time_bucket('1440 minutes', timestamp)"));
    assert!(d.contains("name = $3"));
}

#[test]
fn config_offers_every_resolution() {
    let c = tradingview_config();
    let texts: Vec<&str> = c.supported_resolutions.iter().map(|r| r.as_str()).collect();
    assert_eq!(texts, ALL_TEXTS.to_vec());
    assert!(!c.supports_group_request);
    assert!(!c.supports_marks);
    assert!(c.supports_search);
    assert!(!c.supports_timescale_marks);
}

#[test]
fn server_error_status_and_text() {
    assert_eq!(ServerError::InternalError.status_code(), 500);
    assert_eq!(ServerError::WrongParameters.status_code(), 400);
    assert_eq!(ServerError::WrongResolution.status_code(), 400);
    assert_eq!(ServerError::DbQuerryError.status_code(), 500);
    assert_eq!(ServerError::DbPoolError.status_code(), 500);
    assert_eq!(ServerError::RawMarketNotFound.status_code(), 400);
    assert_eq!(ServerError::SymbolNotFound.status_code(), 400);
    assert_eq!(ServerError::WrongResolution.message(), "Wrong resolution");
    assert_eq!(ServerError::DbQuerryError.message(), "DB error");
    assert_eq!(
        ServerError::InternalError.message(),
        "An internal error occurred. Please try again later."
    );
    assert_eq!(ServerError::SymbolNotFound.message(), "Request symbol not found");
}

#[test]
fn symbol_info_of_readme_market() {
    let ms = markets();
    let info = SymbolInfo::new("FIDA-USDC-PYTH", &ms).unwrap();
    assert_eq!(info.name, "FIDA-USDC-PYTH");
    assert_eq!(info.ticker, "FIDA-USDC-PYTH");
    assert_eq!(info.description, "FIDA-USDC-PYTH");
    assert_eq!(info.symbol_type, "Spot");
    assert_eq!(info.session, "24x7");
    assert_eq!(info.exchange, "Bonfida");
    assert_eq!(info.listed_exchange, "Bonfida");
    assert_eq!(info.timezone, "Etc/UTC");
    assert!(info.has_intraday);
    assert_eq!(f64::from_bits(info.min_mov), 1.0);
    assert_eq!(f64::from_bits(info.price_scale), 100.0);
    let texts: Vec<&str> = info.supported_resolutions.iter().map(|r| r.as_str()).collect();
    assert_eq!(texts, ALL_TEXTS.to_vec());
}

#[test]
fn symbol_info_unknown_market() {
    let ms = markets();
    assert!(matches!(SymbolInfo::new("BTC-USDC", &ms), Err(ServerError::RawMarketNotFound)));
    assert!(matches!(SymbolInfo::new("FIDA", &ms), Err(ServerError::RawMarketNotFound)));
}

#[test]
fn symbol_endpoints_errors() {
    let ms = markets();
    let p = SymbolParams { symbol: "BTC".to_string() };
    assert!(matches!(symbols_info(&p, &ms), Err(ServerError::SymbolNotFound)));
    let p = InfoParams { symbol: "BTC".to_string() };
    assert!(matches!(info_symbols_info(&p, &ms), Err(ServerError::RawMarketNotFound)));
    let p = SymbolParams { symbol: "SOL-USDC".to_string() };
    let info = symbols_info(&p, &ms).unwrap();
    assert_eq!(f64::from_bits(info.price_scale), 1000.0);
    let p = InfoParams { symbol: "FIDA-USDC".to_string() };
    let info = info_symbols_info(&p, &ms).unwrap();
    assert_eq!(f64::from_bits(info.min_mov), 2.0);
}

#[test]
fn market_lookup() {
    let ms = markets();
    assert!(valid_market("SOL-USDC", &ms));
    assert!(!valid_market("SOL", &ms));
    assert!(!valid_market("", &ms));
    assert_eq!(find_market(&ms, "FIDA-USDC"), Some(2));
    assert_eq!(find_market(&[], "FIDA-USDC"), None);
}

#[test]
fn search_readme_example() {
    let ms = markets();
    let p = SearchParams {
        query: "FIDA-USDC-PYTH".to_string(),
        search_type: "spot".to_string(),
        exchange: "Bonfida".to_string(),
        limit: 10,
    };
    let hits = search(&p, &ms).unwrap();
    // "FIDA-USDC" occurs in the query, so that market is a hit too.
    assert_eq!(hits.len(), 2);
    let h = &hits[0];
    assert_eq!(h.symbol, "FIDA-USDC-PYTH");
    assert_eq!(h.full_name, "FIDA-USDC-PYTH");
    assert_eq!(
        h.description,
        "Name:FIDA-USDC-PYTH - Address: ETp9eKXVv1dWwHSpsXRUuXHmw24PwRkttCGVgpZEY9zF"
    );
    assert_eq!(h.exchange, "Bonfida");
    assert_eq!(h.ticker, "FIDA-USDC-PYTH");
    assert_eq!(h.symbol_type, "Spot");
    assert_eq!(hits[1].symbol, "FIDA-USDC");
}

#[test]
fn search_by_address_and_substring() {
    let ms = markets();
    let p = SearchParams {
        query: "So1111".to_string(),
        search_type: "spot".to_string(),
        exchange: "Bonfida".to_string(),
        limit: 1,
    };
    let hits = search(&p, &ms).unwrap();
    assert_eq!(hits.len(), 1);
    assert_eq!(hits[0].symbol, "SOL-USDC");
    let p = SearchParams { query: "USDC".to_string(), limit: 10, ..p };
    let hits = search(&p, &ms).unwrap();
    let names: Vec<&str> = hits.iter().map(|s| s.symbol.as_str()).collect();
    assert_eq!(names, vec!["FIDA-USDC-PYTH", "SOL-USDC", "FIDA-USDC"]);
    let p = SearchParams { query: "xyz".to_string(), ..p };
    assert_eq!(search(&p, &ms).unwrap().len(), 0);
}

#[test]
fn search_refuses_other_types_and_exchanges() {
    let ms = markets();
    let p = SearchParams {
        query: "FIDA".to_string(),
        search_type: "futures".to_string(),
        exchange: "Bonfida".to_string(),
        limit: 10,
    };
    assert!(matches!(search(&p, &ms), Err(ServerError::WrongParameters)));
    let p = SearchParams { search_type: "spot".to_string(), exchange: "Serum".to_string(), ..p };
    assert!(matches!(search(&p, &ms), Err(ServerError::WrongParameters)));
}

#[test]
fn bar_of_readme_history() {
    let candles = vec![
        Candle {
            ts_start: 1651189320,
            open: 1.2090027797967196f64.to_bits(),
            close: 1.2090027797967196f64.to_bits(),
            high: 1.2090027797967196f64.to_bits(),
            low: 1.2090027797967196f64.to_bits(),
        },
        Candle {
            ts_start: 1651189380,
            open: 1.208549999864772f64.to_bits(),
            close: 1.2083083698526025f64.to_bits(),
            high: 1.208549999864772f64.to_bits(),
            low: 1.208055029856041f64.to_bits(),
        },
    ];
    let bar = Bar::candles_to_bar(candles);
    assert_eq!(bar.status, "ok");
    assert!(bar.error_message.is_none());
    assert!(bar.next_time.is_none());
    assert_eq!(bar.time, vec![1651189320, 1651189380]);
    let f = |v: &Vec<u64>| v.iter().map(|b| f64::from_bits(*b)).collect::<Vec<f64>>();
    assert_eq!(f(&bar.close), vec![1.2090027797967196, 1.2083083698526025]);
    assert_eq!(f(&bar.open), vec![1.2090027797967196, 1.208549999864772]);
    assert_eq!(f(&bar.high), vec![1.2090027797967196, 1.208549999864772]);
    assert_eq!(f(&bar.low), vec![1.2090027797967196, 1.208055029856041]);
    assert_eq!(bar.volume, vec![0, 0]);
}

#[test]
fn bar_of_no_candles() {
    let bar = Bar::candles_to_bar(vec![]);
    assert_eq!(bar.status, "ok");
    assert!(bar.time.is_empty() && bar.volume.is_empty() && bar.close.is_empty());
}

#[test]
fn history_request_checks() {
    let ms = markets();
    let p = HistoryParams {
        symbol: "SOL-USDC".to_string(),
        from: 10,
        to: 20,
        resolution: "7".to_string(),
    };
    assert!(matches!(history_request(&p, &ms), Err(ServerError::WrongResolution)));
    let p = HistoryParams { symbol: "BTC".to_string(), resolution: "60".to_string(), ..p };
    assert!(matches!(history_request(&p, &ms), Err(ServerError::WrongParameters)));
    let p = HistoryParams { symbol: "SOL-USDC".to_string(), ..p };
    let q = history_request(&p, &ms).unwrap();
    assert_eq!(q.resolution, Resolution::OneHour);
    assert_eq!(q.query, make_query(Resolution::OneHour));
    assert_eq!((q.from, q.to), (10, 20));
    assert_eq!(q.symbol, "SOL-USDC");
    // A wrong resolution is reported before an unknown market.
    let p = HistoryParams { symbol: "BTC".to_string(), resolution: "2".to_string(), ..p };
    assert!(matches!(history_request(&p, &ms), Err(ServerError::WrongResolution)));
}

#[test]
fn market_names() {
    assert!(validate_market_name("FIDA-USDC-PYTH"));
    assert!(validate_market_name("sol_usdc"));
    assert!(validate_market_name("-"));
    assert!(!validate_market_name(""));
    assert!(!validate_market_name("FIDA USDC"));
    assert!(!validate_market_name("FIDA/USDC"));
    assert!(!validate_market_name("a.b"));
    assert!(validate_market_name("éß"));
}

#[test]
fn text_helpers() {
    assert!(text_eq("abc", "abc"));
    assert!(!text_eq("abc", "abd"));
    assert!(contains_text("abc", ""));
    assert!(contains_text("abc", "bc"));
    assert!(!contains_text("abc", "abcd"));
    assert!(contains_text("héllo", "él"));
}

#[test]
fn lookups_by_name_agree() {
    let ms = markets();
    for name in ["FIDA-USDC-PYTH", "SOL-USDC", "FIDA-USDC", "FIDA", "", "sol-usdc"] {
        let valid = valid_market(name, &ms);
        assert_eq!(SymbolInfo::new(name, &ms).is_ok(), valid);
        assert_eq!(symbols_info(&SymbolParams { symbol: name.to_string() }, &ms).is_ok(), valid);
        let p = HistoryParams { symbol: name.to_string(), from: 0, to: 1, resolution: "D".to_string() };
        assert_eq!(history_request(&p, &ms).is_ok(), valid);
    }
}

#[test]
fn queries_differ_only_in_the_bucket() {
    let all = supported_resolutions();
    for r1 in all {
        let q1 = make_query(r1);
        let bucket = format!("time_bucket('{}', timestamp) as ts_start", r1.to_interval());
        assert!(q1.contains(&bucket));
        for r2 in all {
            let q2 = make_query(r2);
            assert_eq!(q1.replacen(&r1.to_interval(), "X", 1), q2.replacen(&r2.to_interval(), "X", 1));
        }
    }
}

#[test]
fn search_keeps_the_first_limit_hits() {
    let ms = markets();
    let p = |limit| SearchParams {
        query: "USDC".to_string(),
        search_type: "spot".to_string(),
        exchange: "Bonfida".to_string(),
        limit,
    };
    let names = |limit| -> Vec<String> {
        search(&p(limit), &ms).unwrap().into_iter().map(|s| s.symbol).collect()
    };
    assert_eq!(names(1), vec!["FIDA-USDC-PYTH"]);
    assert_eq!(names(2), vec!["FIDA-USDC-PYTH", "SOL-USDC"]);
    assert_eq!(names(3).len(), 3);
    assert_eq!(names(255).len(), 3);
    assert!(names(0).is_empty());
}
