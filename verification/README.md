# phantun (client library)

The decision logic of a client that carries UDP datagrams over a fake TCP
connection, verified with Verus.

- `src/config.rs` – configuration file fields (`local` and `remote` required),
  the defaults of the optional ones, the fallback to defaults when the file
  cannot be read or parsed or lacks a required field, and route commands.
- `src/settings.rs` – command-line options laid over the configuration.
- `src/address.rs` – socket addresses as values; choosing the server address
  among resolved ones; the bind address of a session's UDP socket.
- `src/table.rs` – the table of open connections, one per UDP client.
- `src/dispatch.rs` – the listening loop as a state machine over that table.
- `src/worker.rs` – a session's relay workers and its idle watchdog.
- `src/divert.rs` – the packet-interception filter text, the receive loop's
  decisions, and handing a received packet to the caller.

`app/` holds the I/O around the library: the configuration file reader, the
command line, name resolution, tunnel devices and the async tasks.
