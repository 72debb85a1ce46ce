# qubit_retry

Retry policies for synchronous, worker-thread and asynchronous operations.
The decisions of a retry flow (attempt timeouts, elapsed budgets, failure
classification, the choice of delay, terminal errors) are verified by Verus;
the floating-point backoff and jitter delays, listener calls, clocks and
sleeping run in ordinary Rust around them.

## Layout

- `src/` is the verified library. It holds the decisions of a retry flow and
  the values they work on:
  - `executor/retry_flow.rs`: the retry-flow state machine a driver follows
    (begin an attempt, record success or failure, decide what follows);
  - `executor/failure_policy.rs`: effective attempt timeouts, elapsed budgets,
    failure classification, listener decision resolution and retry delays;
  - `options/`: attempt timeouts and their policy, retry limits and their
    builder, configuration merging, delay bounds and random delays;
  - `error/`, `event/`, `events/`, `failure.rs`: error and event values with
    their verified display texts;
  - `duration.rs`, `duration_text.rs`, `decimal.rs`, `text.rs`: the duration
    model, duration text with units, decimal digits and text normalization;
  - `laws.rs`: properties that relate several decisions.
- `app/` is ordinary Rust around the library: the `Retry` executor and its
  builder (clocks, sleeping, worker threads, async timeouts, listener
  callbacks), floating-point delay and jitter strategies, configuration
  reading, `Display` wrappers and serde representations.
- `tests/` exercises the library on concrete values.

## Event values and the categorized error

`src/event/` holds the event values of an earlier listener API
(`RetryEvent`, `SuccessEvent`, `FailureEvent`, `AbortEvent` and their
reasons), and `src/failure.rs` the categorized `RetryError` of that API, with
its display text. They are plain values, kept for callers that use them. The
executor, configuration store and delay strategy of that API are not part of
this crate: they worked on a key-value configuration store and floating-point
strategies, and the retry flow in `src/executor/` with the options in
`src/options/` does their work.
