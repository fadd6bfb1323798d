# chat4000_pyvodozemac

The verified core of a Python binding around matrix-sdk-crypto's `OlmMachine`,
the Matrix end-to-end-encryption state machine. The binding does no networking:
the embedding program feeds sync data in, drains the crypto requests the machine
wants made as `{ id, kind, method, path, body }` gateway frames, and reports each
gateway answer back.

- `src/` is the library, checked by Verus:
  - `requests`: lowering each outgoing crypto request to its gateway frame, and
    building the HTTP response a gateway answer becomes;
  - `machine`: what the machine is handed around each call (sync inputs, the
    response type an answer's `kind` selects, room event inputs);
  - `responses`: a gateway answer read as ruma's typed response;
  - `ids`, `json`: Matrix identifiers (ruma) and JSON checks (serde_json);
  - `errors`: the one error type and its messages.
- `app/` is the PyO3 extension module: it owns the `OlmMachine`, its SQLite
  store and a Tokio runtime, and drives them with what the library decides.
- `tests/` exercises the library on concrete values.
