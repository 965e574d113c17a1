# health

A library to assist in reporting on the health of a system, verified with
Verus.

- `src/` is the verified library: the `Check` and `Status` values with their
  operators, the `Config` of a periodic check, the `Span` in which its times
  are measured, the `State` of a periodic check with the rule by which each
  completed check moves it (`State::record`) and the rule by which its status
  goes stale (`State::status_at`), the level at which each outcome is
  reported (`Level::for_outcome`), and the `Reporter` trait. The laws of the
  library (how many checks in a row move the status, that a fresh update is
  current, the algebra of the operators) are public proof functions beside
  the items they speak of.
- `app/` holds what runs around it: the asynchronous `Checkable` trait, the
  `check_fn` and `check_future` adapters, and the `PeriodicChecker` that runs
  checks in the background with `tokio`, keeps the state under a
  `parking_lot` lock, and reports each outcome through `tracing`.
- `tests/` exercises the library on concrete values.

Times are `Span`s (seconds and nanoseconds); `app/` converts them to and
from `std::time::Duration`.
