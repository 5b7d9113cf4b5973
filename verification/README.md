# uni_socket

A unified TCP socket API (`UniSocket`, `UniListener`, `UniStream`) over
`tokio`, addressed by `uni_addr::UniAddr`.

- `src/` is the verified library. It holds the decisions that the socket
  types make: which socket family an address calls for and which addresses
  can be bound to or connected to (`addr`), whether a socket or stream may
  still initiate a connection (`connect`), which failures of `accept` are
  skipped (`io_error`, `accept`), what `shutdown` reports and how a peek
  buffer is initialised (`stream`). Each is proved against its contract, and
  the laws that relate them are proof functions beside them.
- `app/` holds the socket types themselves. They perform the system calls
  through `tokio` and `socket2`, hand the library the kind of address or
  failure at hand, and act on what it decides.
- `tests/` runs the library's decisions on concrete values.
