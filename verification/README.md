# Demo things

Simulated home appliances for the Web of Things: a lamp, on-off switches, a sink, an oven, a fridge,
a door and a sensor. Their rules are a library that is verified with Verus; the programs that serve
them over HTTP are ordinary Rust around it.

- `src/` is the library. Each appliance has a module with its state, the requests it serves and what
  it does every ten milliseconds: `lamp`, `toggle_switch`, `brightness_switch`, `fade_switch`,
  `float_fade_switch`, `sink`, `oven`, `fridge`, `door`, `sensor`. They share `action` (actions that
  take a while), `fader`, `simulation` (scripts), `target_range`, `hazard`, `clock`, `ident`,
  `problem` and `text`. `cli`, `config_loader` and `option_stream` decide for the programs.
- `tests/` runs the library.
- `app/` serves the things: options, channels, configuration files, descriptions and the arithmetic
  in floating point, which the library gets as functions.

Functions whose names start with `law_` state what holds of the library as a whole.
