# limitless_cli

A command-line client for the Limitless prediction-market exchange on Base,
whose core is a library verified with Verus.

- `src/` is the verified library: order construction (GTC and FOK amounts,
  salts), EIP-712 hashing and signing, the requests sent to the REST API, the
  Socket.IO handshake and stream of the live orderbook feed as a state
  machine, credential resolution, and every text the tables show (amounts in
  millionths, times, shortened titles and addresses, category listings,
  positions, trades, history and events). Each public function states its
  result in `ensures`; the laws that relate several functions are public
  proof functions (`law_*`).
- The calls into other crates (rust_decimal, chrono, alloy, hex, getrandom)
  sit behind small trusted wrappers whose contracts are documented where they
  are declared.
- `tests/` runs the library on concrete values.
- `app/` is the program around it: argument parsing, HTTP and WebSocket I/O,
  the configuration file, terminal output and the TUI, and the float
  arithmetic of prices and VWAPs.

Cargo.toml lists what the library and its tests need. The program in `app/`
also uses `reqwest`, `rustyline`, alloy's `providers`, `contract` and
`sol-types` features, and TLS for `tokio-tungstenite`; these are left out of
Cargo.toml to keep the dependency tree small, so `app/` builds only once they
are added.
