# beetle

The verified core of a content-addressed block exchange node, written in Verus.

- `src/` is the library. Every function there carries a contract that Verus
  proves: the bitswap protocol identifiers and frame codec (`protocol`,
  `framing`), the peer table (`peer_manager`), the query manager (`query`),
  bounded collections (`collections`), multicodec codes (`codecs`), the
  balanced tree layout of files (`balanced_tree`), the rules of the service
  command line tool (`services`, with `text_order` for sorted sets of names),
  the gateway's error answers (`gateway_error`), RPC address texts (`addr`)
  and the store client's answers (`store_client`). Peers, connections and
  content identifiers are integer handles.
- `app/` drives the library from the outside world: processes, terminals,
  sockets, HTTP answers and async streams.
- `tests/` runs the library on concrete values.
