# kbs

The verified core of a key broker service (KBS) and of its client SDK.

`src/` holds the decisions and the text that the broker and the client
compute, with contracts that Verus proves:

- `repository`: where the local file system repository keeps a resource and
  how its read tool is invoked;
- `set_resource`: the request that stores a secret resource, as a state
  machine whose caller performs the outside work (session lookup, decryption,
  seed and owner checks, the write) and reports back;
- `config`: the owner-only policy requests, as a smaller state machine;
- `evidence`: the challenge of an evidence request and the runtime data and
  address handed to the attestation agent;
- `ownership`: request validation and error messages of the confidential
  file system endpoints;
- `client`: the addresses, bodies and owner-signed requests that the client
  SDK sends;
- `owner`: the owner's bearer token, signed with the owner's Ed25519 key;
- `encoding`, `text`, `error`: Base64 and hex text, UTF-8 checks, messages.

`app/` holds the HTTP handlers, the disk and process work and the client's
HTTP calls around them.
