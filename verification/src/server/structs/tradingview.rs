use vstd::prelude::*;
use crate::text::text_eq;
use crate::server::error::ServerError;
use crate::server::structs::candles::Candle;
use crate::server::structs::raw_market::{RawMarket, find_market, first_named, has_market_named};

verus! {

/// A chart resolution supported by the server.
#[derive(Copy, Clone, Debug, PartialEq, Eq, Structural)]
pub enum Resolution {
    OneMinute,
    ThreeMinutes,
    FiveMinutes,
    FifteenMinutes,
    ThirtyMinutes,
    OneHour,
    TwoHours,
    FourHours,
    SixHours,
    EightHours,
    TwelveHours,
    SixteenHours,
    OneDay,
}

/// The text by which TradingView names a resolution.
pub open spec fn resolution_text(r: Resolution) -> Seq<char> {
    match r {
        Resolution::OneMinute => "1"@,
        Resolution::ThreeMinutes => "3"@,
        Resolution::FiveMinutes => "5"@,
        Resolution::FifteenMinutes => "15"@,
        Resolution::ThirtyMinutes => "30"@,
        Resolution::OneHour => "60"@,
        Resolution::TwoHours => "120"@,
        Resolution::FourHours => "240"@,
        Resolution::SixHours => "360"@,
        Resolution::EightHours => "480"@,
        Resolution::TwelveHours => "720"@,
        Resolution::SixteenHours => "960"@,
        Resolution::OneDay => "D"@,
    }
}

impl Resolution {
    /// The text by which TradingView names the resolution.
    pub fn as_str<'a>(self) -> (s: &'a str)
        ensures
            s@ == resolution_text(self),
    {
        match self {
            Resolution::OneMinute => "1",
            Resolution::ThreeMinutes => "3",
            Resolution::FiveMinutes => "5",
            Resolution::FifteenMinutes => "15",
            Resolution::ThirtyMinutes => "30",
            Resolution::OneHour => "60",
            Resolution::TwoHours => "120",
            Resolution::FourHours => "240",
            Resolution::SixHours => "360",
            Resolution::EightHours => "480",
            Resolution::TwelveHours => "720",
            Resolution::SixteenHours => "960",
            Resolution::OneDay => "D",
        }
    }

    /// The resolution named by `v`; `Err(())` when no resolution has that name.
    pub fn from_str(v: &str) -> (r: Result<Self, ()>)
        ensures
            match r {
                Ok(res) => resolution_text(res) == v@,
                Err(()) => forall|res: Resolution| resolution_text(res) != v@,
            },
    {
        if text_eq(v, "1") {
            Ok(Resolution::OneMinute)
        } else if text_eq(v, "3") {
            Ok(Resolution::ThreeMinutes)
        } else if text_eq(v, "5") {
            Ok(Resolution::FiveMinutes)
        } else if text_eq(v, "15") {
            Ok(Resolution::FifteenMinutes)
        } else if text_eq(v, "30") {
            Ok(Resolution::ThirtyMinutes)
        } else if text_eq(v, "60") {
            Ok(Resolution::OneHour)
        } else if text_eq(v, "120") {
            Ok(Resolution::TwoHours)
        } else if text_eq(v, "240") {
            Ok(Resolution::FourHours)
        } else if text_eq(v, "360") {
            Ok(Resolution::SixHours)
        } else if text_eq(v, "480") {
            Ok(Resolution::EightHours)
        } else if text_eq(v, "720") {
            Ok(Resolution::TwelveHours)
        } else if text_eq(v, "960") {
            Ok(Resolution::SixteenHours)
        } else if text_eq(v, "D") {
            Ok(Resolution::OneDay)
        } else {
            Err(())
        }
    }

    /// The PostgreSQL interval that one bucket of this resolution spans.
    pub fn to_interval(self) -> (s: String)
        ensures
            s@ == interval_text(self),
            s@ == decimal_text(resolution_minutes(self)) + " minutes"@,
    {
        proof {
            interval_is_resolution_minutes(self);
        }
        match self {
            Resolution::OneDay => {
                String::from_str("1440 minutes")
            },
            other => {
                let mut s = String::from_str(other.as_str());
                s.append(" minutes");
                s
            },
        }
    }
}

/// The text " minutes".
pub open spec fn minutes_suffix() -> Seq<char> {
    " minutes"@
}

/// The interval text of a resolution: its number of minutes followed by " minutes".
pub open spec fn interval_text(r: Resolution) -> Seq<char> {
    match r {
        Resolution::OneDay => "1440 minutes"@,
        other => resolution_text(other) + minutes_suffix(),
    }
}


/// The length of a resolution's bar, in minutes.
pub open spec fn resolution_minutes(r: Resolution) -> nat {
    match r {
        Resolution::OneMinute => 1,
        Resolution::ThreeMinutes => 3,
        Resolution::FiveMinutes => 5,
        Resolution::FifteenMinutes => 15,
        Resolution::ThirtyMinutes => 30,
        Resolution::OneHour => 60,
        Resolution::TwoHours => 120,
        Resolution::FourHours => 240,
        Resolution::SixHours => 360,
        Resolution::EightHours => 480,
        Resolution::TwelveHours => 720,
        Resolution::SixteenHours => 960,
        Resolution::OneDay => 1440,
    }
}

/// The decimal digit of `d` (below 10).
pub open spec fn digit_char(d: nat) -> char {
    ((48 + d) as u32) as char
}

/// The decimal numeral of `n`.
pub open spec fn decimal_text(n: nat) -> Seq<char>
    decreases n,
{
    if n < 10 {
        seq![digit_char(n)]
    } else {
        decimal_text(n / 10).push(digit_char(n % 10))
    }
}

/// Each bucket spans the minutes that its resolution names: the interval is
/// the decimal number of the resolution's minutes followed by " minutes"; for
/// every resolution but the day that number is the resolution's own text,
/// and the day is 1440 minutes.
pub proof fn interval_is_resolution_minutes(r: Resolution)
    ensures
        interval_text(r) == decimal_text(resolution_minutes(r)) + " minutes"@,
        r != Resolution::OneDay ==> resolution_text(r) == decimal_text(resolution_minutes(r)),
        r != Resolution::OneDay ==> interval_text(r) == resolution_text(r) + " minutes"@,
        r == Resolution::OneDay ==> interval_text(r) == "1440 minutes"@,
{
    reveal_strlit("1");
    reveal_strlit("3");
    reveal_strlit("5");
    reveal_strlit("15");
    reveal_strlit("30");
    reveal_strlit("60");
    reveal_strlit("120");
    reveal_strlit("240");
    reveal_strlit("360");
    reveal_strlit("480");
    reveal_strlit("720");
    reveal_strlit("960");
    reveal_strlit("1440 minutes");
    reveal_strlit(" minutes");
    reveal_with_fuel(decimal_text, 5);
    let d = decimal_text(resolution_minutes(r));
    if r == Resolution::OneDay {
        assert(d =~= seq!['1', '4', '4', '0']);
        assert(interval_text(r) =~= d + " minutes"@);
    } else {
        assert(d =~= resolution_text(r));
    }
}

/// The resolutions that the server offers, in increasing length.
pub open spec fn all_resolutions() -> Seq<Resolution> {
    seq![
        Resolution::OneMinute,
        Resolution::ThreeMinutes,
        Resolution::FiveMinutes,
        Resolution::FifteenMinutes,
        Resolution::ThirtyMinutes,
        Resolution::OneHour,
        Resolution::TwoHours,
        Resolution::FourHours,
        Resolution::SixHours,
        Resolution::EightHours,
        Resolution::TwelveHours,
        Resolution::SixteenHours,
        Resolution::OneDay,
    ]
}

/// Every resolution the server offers.
pub fn supported_resolutions() -> (r: [Resolution; 13])
    ensures
        r@ == all_resolutions(),
{
    let r = [
        Resolution::OneMinute,
        Resolution::ThreeMinutes,
        Resolution::FiveMinutes,
        Resolution::FifteenMinutes,
        Resolution::ThirtyMinutes,
        Resolution::OneHour,
        Resolution::TwoHours,
        Resolution::FourHours,
        Resolution::SixHours,
        Resolution::EightHours,
        Resolution::TwelveHours,
        Resolution::SixteenHours,
        Resolution::OneDay,
    ];
    assert(r@ =~= all_resolutions());
    r
}

/// The TradingView configuration of the server.
pub struct Config {
    pub supported_resolutions: [Resolution; 13],
    pub supports_group_request: bool,
    pub supports_marks: bool,
    pub supports_search: bool,
    pub supports_timescale_marks: bool,
}

/// The configuration that the server publishes: every resolution, and search
/// as the only optional feature.
pub fn tradingview_config() -> (c: Config)
    ensures
        c.supported_resolutions@ == all_resolutions(),
        !c.supports_group_request,
        !c.supports_marks,
        c.supports_search,
        !c.supports_timescale_marks,
{
    Config {
        supported_resolutions: supported_resolutions(),
        supports_group_request: false,
        supports_marks: false,
        supports_search: true,
        supports_timescale_marks: false,
    }
}

/// One search hit.
pub struct Symbol {
    pub symbol: String,
    pub full_name: String,
    pub description: String,
    pub exchange: String,
    pub ticker: String,
    /// Always Spot in practice
    pub symbol_type: String,
}

/// Price history in columns, as TradingView reads it. The prices are
/// IEEE-754 bit patterns of `f64` prices.
pub struct Bar {
    /// ok, error, no_data
    pub status: String,
    pub error_message: Option<String>,
    pub time: Vec<u64>,
    pub close: Vec<u64>,
    pub open: Vec<u64>,
    pub high: Vec<u64>,
    pub low: Vec<u64>,
    pub volume: Vec<u64>,
    /// Only Some if s == no_data
    pub next_time: Option<u64>,
}

/// `bar` lays out `candles` in columns, in their order, with status "ok".
pub open spec fn bar_of(bar: Bar, candles: Seq<Candle>) -> bool {
    &&& bar.status@ == "ok"@
    &&& bar.error_message is None
    &&& bar.next_time is None
    &&& bar.time.len() == candles.len()
    &&& bar.close.len() == candles.len()
    &&& bar.open.len() == candles.len()
    &&& bar.high.len() == candles.len()
    &&& bar.low.len() == candles.len()
    &&& bar.volume.len() == candles.len()
    &&& forall|i: int| 0 <= i < candles.len() ==> {
        &&& #[trigger] bar.time@[i] == candles[i].ts_start as u64
        &&& bar.close@[i] == candles[i].close
        &&& bar.open@[i] == candles[i].open
        &&& bar.high@[i] == candles[i].high
        &&& bar.low@[i] == candles[i].low
        &&& bar.volume@[i] == 0
    }
}

impl Bar {
    /// Lays out candles in columns; the volume is not recorded and reads 0.
    pub fn candles_to_bar(candles: Vec<Candle>) -> (bar: Self)
        ensures
            bar_of(bar, candles@),
    {
        let mut time: Vec<u64> = Vec::new();
        let mut close: Vec<u64> = Vec::new();
        let mut open: Vec<u64> = Vec::new();
        let mut low: Vec<u64> = Vec::new();
        let mut high: Vec<u64> = Vec::new();
        let mut volume: Vec<u64> = Vec::new();
        let n = candles.len();
        for i in 0..n
            invariant
                n == candles@.len(),
                time@.len() == i,
                close@.len() == i,
                open@.len() == i,
                low@.len() == i,
                high@.len() == i,
                volume@.len() == i,
                forall|j: int| 0 <= j < i ==> #[trigger] time@[j] == candles@[j].ts_start as u64,
                forall|j: int| 0 <= j < i ==> #[trigger] close@[j] == candles@[j].close,
                forall|j: int| 0 <= j < i ==> #[trigger] open@[j] == candles@[j].open,
                forall|j: int| 0 <= j < i ==> #[trigger] high@[j] == candles@[j].high,
                forall|j: int| 0 <= j < i ==> #[trigger] low@[j] == candles@[j].low,
                forall|j: int| 0 <= j < i ==> #[trigger] volume@[j] == 0,
        {
            let c = candles[i];
            time.push(#[verifier::truncate] (c.ts_start as u64));
            close.push(c.close);
            open.push(c.open);
            high.push(c.high);
            low.push(c.low);
            volume.push(0);
        }
        Bar {
            status: String::from_str("ok"),
            error_message: None,
            time,
            close,
            open,
            low,
            high,
            volume,
            next_time: None,
        }
    }
}

/// What TradingView is told of one symbol. `min_mov` and `price_scale` are the
/// IEEE-754 bit patterns of the market's `f64` values.
pub struct SymbolInfo {
    pub name: String,
    pub ticker: String,
    pub description: String,
    pub symbol_type: String,
    /// "24x7"
    pub session: String,
    pub exchange: String,
    pub listed_exchange: String,
    /// "Etc/UTC"
    pub timezone: String,
    /// true
    pub has_intraday: bool,
    pub supported_resolutions: [Resolution; 13],
    pub min_mov: u64,
    pub price_scale: u64,
}

/// `info` describes the market `market` under the symbol `symbol`.
pub open spec fn symbol_info_of(info: SymbolInfo, symbol: Seq<char>, market: RawMarket) -> bool {
    &&& info.name@ == symbol
    &&& info.ticker@ == symbol
    &&& info.description@ == symbol
    &&& info.symbol_type@ == "Spot"@
    &&& info.session@ == "24x7"@
    &&& info.exchange@ == "Bonfida"@
    &&& info.listed_exchange@ == "Bonfida"@
    &&& info.timezone@ == "Etc/UTC"@
    &&& info.has_intraday
    &&& info.supported_resolutions@ == all_resolutions()
    &&& info.min_mov == market.min_mov
    &&& info.price_scale == market.price_scale
}

impl SymbolInfo {
    /// Describes the first market named `symbol`; fails with
    /// `RawMarketNotFound` when no market has that name.
    pub fn new(symbol: &str, raw_markets: &[RawMarket]) -> (r: Result<Self, ServerError>)
        ensures
            match r {
                Ok(info) => exists|k: int|
                    first_named(raw_markets@, symbol@, k) && symbol_info_of(
                        info,
                        symbol@,
                        #[trigger] raw_markets@[k],
                    ),
                Err(e) => e == ServerError::RawMarketNotFound && !has_market_named(
                    raw_markets@,
                    symbol@,
                ),
            },
    {
        let k = match find_market(raw_markets, symbol) {
            Some(k) => k,
            None => return Err(ServerError::RawMarketNotFound),
        };
        let market = &raw_markets[k];
        let info = SymbolInfo {
            name: String::from_str(symbol),
            ticker: String::from_str(symbol),
            description: String::from_str(symbol),
            symbol_type: String::from_str("Spot"),
            session: String::from_str("24x7"),
            exchange: String::from_str("Bonfida"),
            listed_exchange: String::from_str("Bonfida"),
            timezone: String::from_str("Etc/UTC"),
            has_intraday: true,
            supported_resolutions: supported_resolutions(),
            min_mov: market.min_mov,
            price_scale: market.price_scale,
        };
        assert(symbol_info_of(info, symbol@, raw_markets@[k as int]));
        Ok(info)
    }
}

/// The columns of a bar all have the same length: one entry per candle.
pub proof fn bar_columns_aligned(bar: Bar, candles: Seq<Candle>)
    requires
        bar_of(bar, candles),
    ensures
        bar.time.len() == bar.close.len(),
        bar.close.len() == bar.open.len(),
        bar.open.len() == bar.low.len(),
        bar.low.len() == bar.high.len(),
        bar.high.len() == bar.volume.len(),
{
}

/// Distinct resolutions have distinct texts, so a resolution is named by its text:
/// `Resolution::from_str(r.as_str())` gives back `Ok(r)`, and whatever `from_str`
/// accepts is the text of exactly one resolution.
#[verifier::spinoff_prover]
pub proof fn resolution_text_identifies(r1: Resolution, r2: Resolution)
    requires
        resolution_text(r1) == resolution_text(r2),
    ensures
        r1 == r2,
{
    reveal_strlit("1");
    reveal_strlit("3");
    reveal_strlit("5");
    reveal_strlit("15");
    reveal_strlit("30");
    reveal_strlit("60");
    reveal_strlit("120");
    reveal_strlit("240");
    reveal_strlit("360");
    reveal_strlit("480");
    reveal_strlit("720");
    reveal_strlit("960");
    reveal_strlit("D");
    let t1 = resolution_text(r1);
    let t2 = resolution_text(r2);
    assert(t1.len() == t2.len());
    assert(t1[0] == t2[0]);
    if t1.len() > 1 {
        assert(t1[1] == t2[1]);
    }
}

} // verus!
