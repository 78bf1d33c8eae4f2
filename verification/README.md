# eas_client

A client library for the Ethereum Attestation Service (EAS), verified with
Verus.

- `src/` is the verified library: chain configurations (`chain`), the client
  configuration (`config`), the ABI encoding of attestation payloads
  (`encoding`, over the hex helpers in `hexcodec`), the error taxonomy with
  its codes and messages (`error`, `text`), the request and record types
  (`types`), and the decisions of the client around its network calls
  (`client`, `client::attestation`). Calls into `alloy`, `hex` and `reqwest`
  stand behind small trusted wrappers whose contracts are documented where
  they are declared.
- `app/` is the networked client: it connects with alloy's HTTP provider,
  sends the transactions the library prepares, hands receipts and replies
  back to the library, and holds serde-enabled copies of the records.
- `tests/` exercises the library on concrete values.
