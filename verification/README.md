# rdp_client

A remote desktop client for one host. `src/` decides what the client does; `app/` does it.

`src/` is a library whose functions are verified with Verus. It holds:

- `config`, `password`, `address`, `tls`: the settings of the connection, the password in what the
  secret store prints, the address to connect to, and the key in the server's certificate;
- `session`, with `stage`, `plan` and `image`: what is done with a message of the server, and the
  packing of the regions that it updates;
- `run`: what holds of a session from its start to its end;
- `input` and `batch`: keyboard and mouse, and the input on its way to the session;
- `app` and `events`: the state of the window and what it does about its events;
- `gpu`: how the surface and the texture are set up and what is written to the texture;
- `error`: what can go wrong and how the user is told.

The session decoder, the input database, the platform's scan codes and the certificate parser are
outside crates. The library calls them through small wrappers, each with a contract that says what
is relied on.

`app/` is the program: the network, the window, the graphics device, and the floating-point numbers
in which the window gives positions and turns of the wheel. Besides the crates in `Cargo.toml` it
takes `wgpu`, `sspi` with its feature `network_client`, and `tracing-subscriber` with its feature
`env-filter`.

`tests/` runs the library with the outside crates linked.
