# Etherdream

Tools to discover, connect to and write laser data to Etherdream DACs.

The crate is in two parts:

- `src/` is the library, verified with Verus: the wire protocol (states,
  intrinsics, commands, control signals and their byte encodings), the
  bounded point buffers, the discovery registry, the client's writer and
  response decisions, the generator's execution context, the simulated and
  emulated device, and the scene and list decisions of the command-line
  interface. Each public function carries a contract, and the laws that tie
  functions together (encodings that decode back, a device published once,
  a pop that undoes a push) are proof functions.
- `app/` is the runtime around it: the tokio tasks, sockets and timers of the
  client, the discovery service, the generator, the simulator and the
  emulators, the floating-point point executables, and a line-mode front end
  of the command-line tool.

Tests live in `tests/`.
