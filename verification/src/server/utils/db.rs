use vstd::prelude::*;
use crate::server::structs::tradingview::{
    Resolution,
    decimal_text,
    interval_is_resolution_minutes,
    interval_text,
    resolution_minutes,
    resolution_text,
};
use crate::text::{occurs_at, occurs_in, occurs_in_larger};

verus! {

/// The text of the query before the bucket interval.
pub open spec fn query_head() -> Seq<char> {
    "\n            SELECT\n                time_bucket('"@
}

/// The text of the query after the bucket interval.
pub open spec fn query_tail() -> Seq<char> {
    "', timestamp) as ts_start,\n                first(open, timestamp) as open,\n                MIN(low) as low,\n                last(close, timestamp) as close,\n                MAX(high) as high\n            FROM\n                candles\n            WHERE\n                timestamp > $1\n                AND\n                timestamp < $2\n                AND\n                name = $3\n            GROUP BY\n                ts_start\n            ORDER BY\n                ts_start\n"@
}

/// The SQL query that aggregates the candles of one market, between two
/// timestamps, into buckets of `resolution` (parameters: `$1` start, `$2` end,
/// `$3` market name).
pub fn make_query(resolution: Resolution) -> (query: String)
    ensures
        query@ == query_text(resolution),
        query@ == "\n            SELECT\n                time_bucket('"@ + decimal_text(resolution_minutes(resolution)) + " minutes"@
            + "', timestamp) as ts_start,\n                first(open, timestamp) as open,\n                MIN(low) as low,\n                last(close, timestamp) as close,\n                MAX(high) as high\n            FROM\n                candles\n            WHERE\n                timestamp > $1\n                AND\n                timestamp < $2\n                AND\n                name = $3\n            GROUP BY\n                ts_start\n            ORDER BY\n                ts_start\n"@,
        occurs_in("first(open, timestamp) as open"@, query@),
        occurs_in("MIN(low) as low"@, query@),
        occurs_in("last(close, timestamp) as close"@, query@),
        occurs_in("MAX(high) as high"@, query@),
        occurs_in("FROM\n                candles"@, query@),
        occurs_in("timestamp > $1"@, query@),
        occurs_in("timestamp < $2"@, query@),
        occurs_in("name = $3"@, query@),
        occurs_in("GROUP BY\n                ts_start"@, query@),
        occurs_in("ORDER BY\n                ts_start"@, query@),
        occurs_in("time_bucket('"@ + interval_text(resolution) + "', timestamp) as ts_start"@, query@),
{
    proof {
        query_aggregates_bars(resolution);
        interval_is_resolution_minutes(resolution);
    }
    let mut query = String::from_str("\n            SELECT\n                time_bucket('");
    let interval = resolution.to_interval();
    query.append(interval.as_str());
    query.append("', timestamp) as ts_start,\n                first(open, timestamp) as open,\n                MIN(low) as low,\n                last(close, timestamp) as close,\n                MAX(high) as high\n            FROM\n                candles\n            WHERE\n                timestamp > $1\n                AND\n                timestamp < $2\n                AND\n                name = $3\n            GROUP BY\n                ts_start\n            ORDER BY\n                ts_start\n");
    query
}

/// The text of the aggregation query for a resolution.
pub open spec fn query_text(resolution: Resolution) -> Seq<char> {
    query_head() + interval_text(resolution) + query_tail()
}

/// The aggregation query groups the candles of one market (`name = $3`)
/// between the two bounds (`timestamp > $1`, `timestamp < $2`) into buckets of
/// the resolution's interval, in time order, and makes each bar from its
/// bucket: the open of the earliest candle, the lowest low, the close of the
/// latest candle and the highest high.
pub proof fn query_aggregates_bars(resolution: Resolution)
    ensures
        occurs_in("first(open, timestamp) as open"@, query_text(resolution)),
        occurs_in("MIN(low) as low"@, query_text(resolution)),
        occurs_in("last(close, timestamp) as close"@, query_text(resolution)),
        occurs_in("MAX(high) as high"@, query_text(resolution)),
        occurs_in("FROM\n                candles"@, query_text(resolution)),
        occurs_in("timestamp > $1"@, query_text(resolution)),
        occurs_in("timestamp < $2"@, query_text(resolution)),
        occurs_in("name = $3"@, query_text(resolution)),
        occurs_in("GROUP BY\n                ts_start"@, query_text(resolution)),
        occurs_in("ORDER BY\n                ts_start"@, query_text(resolution)),
        occurs_in("time_bucket('"@ + interval_text(resolution) + "', timestamp) as ts_start"@, query_text(resolution)),
{
    reveal_strlit("\n            SELECT\n                time_bucket('");
    reveal_strlit("', timestamp) as ts_start,\n                first(open, timestamp) as open,\n                MIN(low) as low,\n                last(close, timestamp) as close,\n                MAX(high) as high\n            FROM\n                candles\n            WHERE\n                timestamp > $1\n                AND\n                timestamp < $2\n                AND\n                name = $3\n            GROUP BY\n                ts_start\n            ORDER BY\n                ts_start\n");
    let t = query_text(resolution);
    assert(query_text(resolution) =~= (query_head() + interval_text(resolution)) + query_tail() + Seq::empty());
    reveal_strlit("first(open, timestamp) as open");
    assert(query_tail().subrange(43, 43 + "first(open, timestamp) as open"@.len() as int) =~= "first(open, timestamp) as open"@);
    occurs_at("first(open, timestamp) as open"@, query_tail(), 43);
    occurs_in_larger("first(open, timestamp) as open"@, query_head() + interval_text(resolution), query_tail(), Seq::empty());
    reveal_strlit("MIN(low) as low");
    assert(query_tail().subrange(91, 91 + "MIN(low) as low"@.len() as int) =~= "MIN(low) as low"@);
    occurs_at("MIN(low) as low"@, query_tail(), 91);
    occurs_in_larger("MIN(low) as low"@, query_head() + interval_text(resolution), query_tail(), Seq::empty());
    reveal_strlit("last(close, timestamp) as close");
    assert(query_tail().subrange(124, 124 + "last(close, timestamp) as close"@.len() as int) =~= "last(close, timestamp) as close"@);
    occurs_at("last(close, timestamp) as close"@, query_tail(), 124);
    occurs_in_larger("last(close, timestamp) as close"@, query_head() + interval_text(resolution), query_tail(), Seq::empty());
    reveal_strlit("MAX(high) as high");
    assert(query_tail().subrange(173, 173 + "MAX(high) as high"@.len() as int) =~= "MAX(high) as high"@);
    occurs_at("MAX(high) as high"@, query_tail(), 173);
    occurs_in_larger("MAX(high) as high"@, query_head() + interval_text(resolution), query_tail(), Seq::empty());
    reveal_strlit("FROM\n                candles");
    assert(query_tail().subrange(203, 203 + "FROM\n                candles"@.len() as int) =~= "FROM\n                candles"@);
    occurs_at("FROM\n                candles"@, query_tail(), 203);
    occurs_in_larger("FROM\n                candles"@, query_head() + interval_text(resolution), query_tail(), Seq::empty());
    reveal_strlit("timestamp > $1");
    assert(query_tail().subrange(266, 266 + "timestamp > $1"@.len() as int) =~= "timestamp > $1"@);
    occurs_at("timestamp > $1"@, query_tail(), 266);
    occurs_in_larger("timestamp > $1"@, query_head() + interval_text(resolution), query_tail(), Seq::empty());
    reveal_strlit("timestamp < $2");
    assert(query_tail().subrange(317, 317 + "timestamp < $2"@.len() as int) =~= "timestamp < $2"@);
    occurs_at("timestamp < $2"@, query_tail(), 317);
    occurs_in_larger("timestamp < $2"@, query_head() + interval_text(resolution), query_tail(), Seq::empty());
    reveal_strlit("name = $3");
    assert(query_tail().subrange(368, 368 + "name = $3"@.len() as int) =~= "name = $3"@);
    occurs_at("name = $3"@, query_tail(), 368);
    occurs_in_larger("name = $3"@, query_head() + interval_text(resolution), query_tail(), Seq::empty());
    reveal_strlit("GROUP BY\n                ts_start");
    assert(query_tail().subrange(390, 390 + "GROUP BY\n                ts_start"@.len() as int) =~= "GROUP BY\n                ts_start"@);
    occurs_at("GROUP BY\n                ts_start"@, query_tail(), 390);
    occurs_in_larger("GROUP BY\n                ts_start"@, query_head() + interval_text(resolution), query_tail(), Seq::empty());
    reveal_strlit("ORDER BY\n                ts_start");
    assert(query_tail().subrange(436, 436 + "ORDER BY\n                ts_start"@.len() as int) =~= "ORDER BY\n                ts_start"@);
    occurs_at("ORDER BY\n                ts_start"@, query_tail(), 436);
    occurs_in_larger("ORDER BY\n                ts_start"@, query_head() + interval_text(resolution), query_tail(), Seq::empty());
    let b = "time_bucket('"@ + interval_text(resolution) + "', timestamp) as ts_start"@;
    reveal_strlit("time_bucket('");
    reveal_strlit("', timestamp) as ts_start");
    let h = query_head().len() as int;
    assert(t.subrange(h - 13, h - 13 + b.len() as int) =~= b);
    occurs_at(b, t, h - 13);
}

/// The queries of any two resolutions agree everywhere but in the bucket
/// interval: the same text comes before it and after it.
pub proof fn queries_differ_only_in_bucket(r1: Resolution, r2: Resolution)
    ensures
        query_text(r1).take(query_head().len() as int) == query_text(r2).take(
            query_head().len() as int,
        ),
        query_text(r1).skip((query_head().len() + interval_text(r1).len()) as int) == query_text(r2).skip(
            (query_head().len() + interval_text(r2).len()) as int,
        ),
{
    let h = query_head().len() as int;
    assert(query_text(r1).take(h) =~= query_head());
    assert(query_text(r2).take(h) =~= query_head());
    assert(query_text(r1).skip(h + interval_text(r1).len()) =~= query_tail());
    assert(query_text(r2).skip(h + interval_text(r2).len()) =~= query_tail());
}

/// A decimal digit.
pub open spec fn is_digit(c: char) -> bool {
    '0' <= c <= '9'
}

/// The bucket interval is the first place in the query where the interval
/// text occurs: it stands right after the head, and no earlier position
/// starts it (the head holds no digit, and every interval begins with one).
pub proof fn bucket_is_first_interval(r: Resolution)
    ensures
        query_text(r).subrange(
            query_head().len() as int,
            (query_head().len() + interval_text(r).len()) as int,
        ) == interval_text(r),
        forall|i: int|
            0 <= i < query_head().len() ==> #[trigger] query_text(r).subrange(
                i,
                i + interval_text(r).len(),
            ) != interval_text(r),
{
    let h = query_head().len() as int;
    let t = interval_text(r);
    assert(query_text(r).subrange(h, h + t.len()) =~= t);
    lemma_interval_starts_with_digit(r);
    lemma_head_has_no_digit();
    assert forall|i: int| 0 <= i < h implies #[trigger] query_text(r).subrange(i, i + t.len()) != t by {
        assert(query_text(r)[i] == query_head()[i]);
        assert(query_text(r).subrange(i, i + t.len())[0] == query_text(r)[i]);
    }
}

proof fn lemma_interval_starts_with_digit(r: Resolution)
    ensures
        interval_text(r).len() > 0,
        is_digit(interval_text(r)[0]),
{
    reveal_strlit("1");
    reveal_strlit("3");
    reveal_strlit("5");
    reveal_strlit("15");
    reveal_strlit("30");
    reveal_strlit("60");
    reveal_strlit("120");
    reveal_strlit("240");
    reveal_strlit("360");
    reveal_strlit("480");
    reveal_strlit("720");
    reveal_strlit("960");
    reveal_strlit("1440 minutes");
    reveal_strlit(" minutes");
    if r != Resolution::OneDay {
        assert((resolution_text(r) + " minutes"@)[0] == resolution_text(r)[0]);
    }
}

proof fn lemma_head_has_no_digit()
    ensures
        forall|i: int| 0 <= i < query_head().len() ==> !is_digit(#[trigger] query_head()[i]),
{
    reveal_strlit("\n            SELECT\n                time_bucket('");
}

/// `i` is the first position at which `pattern` occurs in `text`.
pub open spec fn first_occurrence(text: Seq<char>, pattern: Seq<char>, i: int) -> bool {
    &&& 0 <= i <= text.len() - pattern.len()
    &&& text.subrange(i, i + pattern.len()) == pattern
    &&& forall|j: int| 0 <= j < i ==> #[trigger] text.subrange(j, j + pattern.len()) != pattern
}

/// `text` with the first occurrence of `pattern` replaced by `replacement`
/// (`str::replacen(pattern, replacement, 1)`); `text` itself when `pattern`
/// does not occur.
pub open spec fn replace_first(text: Seq<char>, pattern: Seq<char>, replacement: Seq<char>) -> Seq<char> {
    if exists|i: int| first_occurrence(text, pattern, i) {
        let i = choose|i: int| first_occurrence(text, pattern, i);
        text.take(i) + replacement + text.skip(i + pattern.len())
    } else {
        text
    }
}

/// Replacing the bucket interval of two queries by the same text gives the
/// same query: `make_query(r1).replacen(&r1.to_interval(), x, 1)` equals
/// `make_query(r2).replacen(&r2.to_interval(), x, 1)`.
pub proof fn queries_equal_but_for_bucket(r1: Resolution, r2: Resolution, x: Seq<char>)
    ensures
        replace_first(query_text(r1), interval_text(r1), x) == replace_first(
            query_text(r2),
            interval_text(r2),
            x,
        ),
{
    lemma_replace_bucket(r1, x);
    lemma_replace_bucket(r2, x);
}

proof fn lemma_replace_bucket(r: Resolution, x: Seq<char>)
    ensures
        replace_first(query_text(r), interval_text(r), x) == query_head() + x + query_tail(),
{
    let q = query_text(r);
    let t = interval_text(r);
    let h = query_head().len() as int;
    bucket_is_first_interval(r);
    assert(first_occurrence(q, t, h));
    let i = choose|i: int| first_occurrence(q, t, i);
    if i < h {
        assert(q.subrange(i, i + t.len()) != t);
    }
    if h < i {
        assert(q.subrange(h, h + t.len()) != t);
    }
    assert(i == h);
    assert(q.take(h) =~= query_head());
    assert(q.skip(h + t.len()) =~= query_tail());
    assert(q.take(i) + x + q.skip(i + t.len()) =~= query_head() + x + query_tail());
}

} // verus!
