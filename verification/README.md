# clock_synchronization

Simulated quartz clocks and Cristian clock synchronisation, verified with Verus.

- `src/` — the library, verified:
  - `duration` — signed spans of time with nanosecond precision (the range of chrono's `TimeDelta`);
  - `time_of_day` — a UTC time of day and its readings; adding a span wraps round midnight;
  - `drift` — drift rates in parts per million of real time;
  - `quartz_clock` — the simulated clock: skew, drift, tick, readings;
  - `grpc_server` — the master's Cristian time answer and the slave's use of it;
  - `display` — the text of clock readings and skew settings;
  - `state` — the window's settings and colours; `state::use_state` — the state of a request whose answer comes later.
- `app/` — the egui window around the library (not verified).
- `tests/` — tests of the library.
