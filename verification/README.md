# trading_ig

A client for the IG Markets REST and Lightstreamer streaming APIs whose
core is verified with Verus.

- `src/` is the verified library: the Lightstreamer line protocol (frames,
  field decoding and merging, the OK block), line framing of the streaming
  response, the subscription registry, the read loop's and the auto-reconnect
  sequence's decisions, session token bookkeeping and its transitions,
  request headers and paths, query-string encoding, error classification,
  and the IG date formats.  Calls into `chrono`, `url`, `base64` and `rsa`
  go through small trusted wrappers whose contracts are stated in the code.
- `app/` is the asynchronous HTTP and streaming plumbing around it
  (`reqwest`, `tokio`), the `serde` and `thiserror` forms of the library's
  types, the floating-point parts, and `polars` conversions.
- `tests/` exercises the library on concrete values.
