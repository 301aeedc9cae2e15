use vstd::prelude::*;

verus! {

/// One aggregated candle as the database returns it.
///
/// `ts_start` is the start of the bucket in seconds since the Unix epoch; the
/// prices are the IEEE-754 bit patterns of the `f64` prices (`f64::to_bits`).
#[derive(Copy, Clone, Debug)]
pub struct Candle {
    pub ts_start: i64,
    pub open: u64,
    pub close: u64,
    pub high: u64,
    pub low: u64,
}

} // verus!
