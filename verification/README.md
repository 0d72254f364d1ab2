# rdp-screenshot

Takes screenshots of remote Windows desktops, once or every few seconds.

```bash
rdp-screenshot --host <HOSTNAME> [--port <PORT>]
               -u/--username <USERNAME> -p/--password <PASSWORD>
               [-d/--domain <DOMAIN>] [-o/--output <OUTPUT_FILE.png>] [--keep-open]
```

## Layout

- `src/` is the library: the decisions of the client, written and proved in Verus.
  - `config`: the settings of a connection.
  - `connect`: the order in which a connection is made.
  - `tls`: the TLS client, and the server key that the authentication is bound to.
  - `session`: what is read, answered and saved once the client is connected.
  - `trace`: what holds of whole sessions.
  - `screenshot`: the frame buffer and the picture in it.
  - `output_path`, `decimal`: where a screenshot is written.
- `app/` is the program: command line, sockets, TLS records, the graphics
  decoder and files. It performs what the library decides.
- `tests/` runs the library on examples.

Paths, certificates, server names and frame buffers belong to the standard
library and to other crates. Each function of theirs that the library calls has
a contract that is believed, not proved; the comment above it says what is
believed.
