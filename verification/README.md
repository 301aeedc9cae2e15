# candles

Candle charts for TradingView: a worker samples the prices of Pyth feeds and
order book markets into one-minute candles, and a server answers
TradingView's UDF requests (config, symbols, search, history, time) from the
candle database.

- `src/` is the verified library (Verus): resolutions and their texts, the
  aggregation query, request validation, symbol search, the column layout of
  price history, error statuses, market loading, the sampling rounds of the
  worker (order book mid prices, Pyth prices read with `pyth-sdk-solana` and scaled to fixed point), the
  storage chunk size, the sampling interval, the order of the writes of a
  round, and the cutting of account lists into RPC requests.
  Prices that are floating-point in the database travel through the library
  as `f64` bit patterns or as 32.32 fixed-point integers.
- `app/` holds the two programs (`candles server ...`, `candles worker ...`):
  argument handling, the HTTP handlers, the PostgreSQL and RPC I/O, JSON, and
  the floating-point conversions.
- `tests/` exercises the library on concrete values.
