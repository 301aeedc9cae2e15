use vstd::prelude::*;

verus! {

/// Size in bytes of a single stored candle.
pub const ENTRY_SIZE: u64 = 112;

/// The number of markets that sizes the storage chunks: at least 10.
pub open spec fn chunk_markets(number_of_markets: u64) -> int {
    if number_of_markets < 10 { 10 } else { number_of_markets as int }
}

/// The markets are counted as `max(10, number_of_markets)`: every count from
/// 10 up is taken as it is, without bound, and smaller counts as 10.
pub proof fn chunk_markets_is_max_with_ten(number_of_markets: u64)
    ensures
        number_of_markets >= 10 ==> chunk_markets(number_of_markets) == number_of_markets,
        number_of_markets < 10 ==> chunk_markets(number_of_markets) == 10,
        chunk_markets(number_of_markets) >= number_of_markets,
        chunk_markets(number_of_markets) >= 10,
{
}

/// The time span, in milliseconds, over which the candles of all markets fill
/// the whole system memory: sampling every `refresh_period_ms` milliseconds,
/// with `system_memory_kb` kilobytes of memory and `number_of_markets` markets
/// (counted as at least 10). The storage chunk interval is a tenth of it.
pub fn chunk_size_ms(refresh_period_ms: u64, system_memory_kb: u64, number_of_markets: u64) -> (ms: u64)
    requires
        refresh_period_ms * system_memory_kb * 1024 <= u64::MAX,
    ensures
        ms == refresh_period_ms * system_memory_kb * 1024 / (ENTRY_SIZE as int) / chunk_markets(
            number_of_markets,
        ),
        number_of_markets >= 10 ==> ms == refresh_period_ms * system_memory_kb * 1024 / 112
            / number_of_markets as int,
        number_of_markets < 10 ==> ms == refresh_period_ms * system_memory_kb * 1024 / 112 / 10,
        number_of_markets >= 10 ==> ms * number_of_markets <= refresh_period_ms * system_memory_kb
            * 1024 / 112 < (ms + 1) * number_of_markets,
{
    let markets: u64 = if number_of_markets < 10 { 10 } else { number_of_markets };
    assert(refresh_period_ms * system_memory_kb <= refresh_period_ms * system_memory_kb * 1024)
        by (nonlinear_arith)
        requires
            0 <= refresh_period_ms * system_memory_kb,
    ;
    let bytes = refresh_period_ms * system_memory_kb * 1024;
    let ms = bytes / ENTRY_SIZE / markets;
    assert(ms * markets <= bytes / 112 < (ms + 1) * markets) by (nonlinear_arith)
        requires
            markets >= 10,
            ms == bytes / 112 / markets,
    ;
    ms
}

/// How often, in milliseconds, the worker samples the prices: every
/// `refresh_period_ms`, the period that the program is given (the period that
/// also sizes the storage chunks). A zero period is refused (`None`): a timer
/// cannot tick that often.
pub fn sampling_interval_ms(refresh_period_ms: u64) -> (ms: Option<u64>)
    ensures
        ms == if refresh_period_ms == 0 {
            None::<u64>
        } else {
            Some(refresh_period_ms)
        },
{
    if refresh_period_ms == 0 {
        None
    } else {
        Some(refresh_period_ms)
    }
}

} // verus!
