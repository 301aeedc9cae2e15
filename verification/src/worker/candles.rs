use vstd::prelude::*;
use crate::worker::error::WorkerError;

verus! {

/// The start of the minute that holds the instant `now` (seconds since the
/// Unix epoch): `now` rounded toward zero to a multiple of 60.
pub open spec fn minute_start(now: int) -> int {
    if now >= 0 {
        now - now % 60
    } else {
        -((-now) - (-now) % 60)
    }
}

/// A one-minute candle of a market. The prices are 32.32 fixed-point numbers
/// (the integer `p` stands for `p / 2^32`).
#[derive(Copy, Clone, Debug, PartialEq, Eq, Structural)]
pub struct Candle {
    pub open: u64,
    pub close: u64,
    pub high: u64,
    pub low: u64,
    pub ts_start: i64,
}

/// `c` is the candle of one price sample: all four prices are `value`, and it
/// starts on a whole minute.
pub open spec fn sample_candle(c: Candle, value: u64) -> bool {
    &&& c.open == value
    &&& c.close == value
    &&& c.high == value
    &&& c.low == value
    &&& c.ts_start % 60 == 0
}

/// `c` is the candle of one price sample `value` taken at `now` (seconds
/// since the Unix epoch, read as a signed number as the clock's `u64` is cast
/// to `i64`): it starts at the minute that holds that instant.
pub open spec fn sampled_at(c: Candle, value: u64, now: u64) -> bool {
    &&& sample_candle(c, value)
    &&& c.ts_start == minute_start((now as i64) as int)
}

impl Candle {
    /// The candle of one price sample taken at `now` (seconds since the Unix
    /// epoch).
    pub fn new(initial_value: u64, now: u64) -> (c: Self)
        ensures
            sampled_at(c, initial_value, now),
    {
        let now = #[verifier::truncate] (now as i64);
        Self {
            open: initial_value,
            close: initial_value,
            high: initial_value,
            low: initial_value,
            ts_start: now - now % 60,
        }
    }
}

/// A candle to store for a market, with the market's address (in base 58)
/// and name.
pub struct CandleCommit {
    pub candle: Candle,
    pub address: String,
    pub name: String,
}

/// The outcome of one sampling round: the candles to store, in order, and the
/// error that stopped the round early, if one did.
pub struct FetchOutcome {
    pub commits: Vec<CandleCommit>,
    pub error: Option<WorkerError>,
}

/// A candle starts on a whole minute, less than a minute from the instant it
/// samples, on the side of that instant toward the epoch: never after an
/// instant from the epoch on, never before an instant before the epoch.
pub proof fn minute_start_bounds(now: int)
    ensures
        now >= 0 ==> now - 60 < minute_start(now) <= now,
        now < 0 ==> now <= minute_start(now) < now + 60,
        minute_start(now) % 60 == 0,
{
}

/// What the program does next in storing a round: write the candle at a
/// position, or finish with the round's result.
#[derive(Copy, Clone, Debug)]
pub enum RoundStep {
    Write(usize),
    Done(Result<(), WorkerError>),
}

/// The result of a round whose candles were all stored: the error that
/// stopped it, if one did.
pub open spec fn round_result(outcome: FetchOutcome) -> Result<(), WorkerError> {
    match outcome.error {
        Some(e) => Err(e),
        None => Ok(()),
    }
}

/// The next step in storing the candles of a round, once `written` of them
/// are stored and the last write failed or not. The candles are written in
/// order; a failed write ends the round with `DbCommitError`; once all are
/// written the round ends with the error that stopped it, if any.
pub fn next_step(outcome: &FetchOutcome, written: usize, write_failed: bool) -> (step: RoundStep)
    requires
        written <= outcome.commits@.len(),
    ensures
        write_failed ==> step == RoundStep::Done(Err(WorkerError::DbCommitError)),
        !write_failed && written < outcome.commits@.len() ==> step == RoundStep::Write(written),
        !write_failed && written == outcome.commits@.len() ==> step == RoundStep::Done(
            round_result(*outcome),
        ),
{
    if write_failed {
        RoundStep::Done(Err(WorkerError::DbCommitError))
    } else if written < outcome.commits.len() {
        RoundStep::Write(written)
    } else {
        match outcome.error {
            Some(e) => RoundStep::Done(Err(e)),
            None => RoundStep::Done(Ok(())),
        }
    }
}

} // verus!
