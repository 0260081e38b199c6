# uds_rs

Client side of Unified Diagnostic Services (ISO 14229-1) over ISO-TP.

- `src/` is the verified library (Verus). Each service module frames its
  request and parses its response, both stated against a byte-level model
  (`spec_*` functions) with round-trip laws; `exchange` is the
  request/response protocol (retries on "busy, repeat request", waiting on
  "response pending", service identifier checks) as a state machine whose
  steps are specified; `communication` holds the transport options as plain
  values.
- `app/` is the asynchronous client: the SocketCAN ISO-TP socket, the tokio
  runtime plumbing that performs the actions the exchange asks for, and an
  error type with the standard error trait.
- `tests/` runs the library on concrete messages, with a scripted transport
  for whole exchanges.
