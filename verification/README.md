# streaming_server

Core of a desktop screen-streaming service, verified with Verus.

- `src/` is the verified library: the length-prefixed framing of every
  transport and the reader state machine that undoes it, port and address
  handling of the direct connection set-up, the tags of the peer-to-peer
  streams, the decisions of watching and streaming sessions, GStreamer
  pipeline descriptions, capture-frame packing and rate limiting, and the
  decisions behind the front end's commands.
- `app/` is the asynchronous I/O around it: the tokio transports and event
  sockets, serde forms of the wire types, and the helper window.
- `tests/` runs the library on concrete values.
