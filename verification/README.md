# xbattery

Xbox controller battery notifications for Windows, with the decision logic verified by
Verus.

- `src/` is the verified library: battery readings and warning policies, controller
  events and the notifications they produce, the controller monitor (which holds back
  readings until they are confirmed and warns once per level), the rumble patterns, the
  scheduling decisions of the service loop, and the launch and stop decisions. Each
  module states its behaviour as contracts over a mathematical model; the laws that span
  several operations are proof functions (for the monitor, in
  `src/controller/monitor/laws.rs`, and, for how long a warning is remembered across a
  run of operations, in `src/controller/monitor/warning_memory.rs`).
- `tests/` exercises the library on concrete values.
- `app/` is the Windows program around it: console and process inspection, message
  boxes, named events and mutexes, and the service loop that waits and polls.

Times in the library are nanoseconds on a monotonic clock, as fine as the clock's
instants, so that "due" is decided as an instant comparison would decide it; rumble
durations are milliseconds, and motor strengths are basis points of full strength.
