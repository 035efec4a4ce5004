# ptd-cli

Command line bridge to the PT-Depiler browser extension over Chrome/Firefox
Native Messaging. A native host (`ptd-host`), started by the browser, keeps a
socket per browser instance; the `ptd` CLI finds a healthy instance and sends
it requests, which the host forwards to the extension and routes back.

Layout:

- `src/` — the verified library (Verus): message types, the request router,
  Native Messaging framing, the host's decisions on browser and client
  messages, instance selection, registry entries and the CLI subcommands'
  decisions and reports.
- `app/` — the host program and CLI plumbing around the library: stdio and
  socket I/O, JSON encoding of the messages, files on disk, argument
  parsing.
- `tests/` — tests of the library.
