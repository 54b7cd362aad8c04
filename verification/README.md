# statime

A Precision Time Protocol node, with its decisions verified by Verus.

- `src/` is the library. It performs no input or output: each part is a state
  machine that takes an event, moves on, and names the action to perform.
  - `time`, `messages`: points and spans of time, and what messages carry.
  - `port::slave`: measuring the offset from a master; `port::slave_laws` states
    what holds of it as a whole.
  - `port::actions`, `port::task`: carrying out what a port asks for, and the life
    of a port between two selections of the best master.
  - `clock::task`, `clock::timer`, `clock::system`: keeping two clocks together.
  - `observer::json`, `observer::socket`: showing the state of the node.
- `tests/` runs the library on concrete values.
- `app/` is what surrounds the library in a daemon: sockets, clocks, files and the
  runtime. The protocol engine, the clock filter and the clock drivers are traits
  there, for want of which `main` runs the observer alone: nothing there calls the
  drivers of ports, clocks and slaves yet.
