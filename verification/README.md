# tvc_app

A Turnkey Verifiable Cloud application template whose core is verified with
Verus.

- `src/` is the verified library:
  - `tvc_axum`: canonical-JSON responses and the response signing layer
    (content digest, signature input, signature base and signature headers for
    the ephemeral and quorum keys), with laws on what signing keeps and what
    the signed bytes bind.
  - `helloworld`: the template's handlers as pure functions (Turnkey activity
    bodies and API stamps, body signing, diagnostics and download reports,
    error responses, the command line's listen address).
  - `notary`: the notary service's state and its receipts.
  - `reply`, `http`, `text`: replies, header lists and decimal text.
  - `codec`, `keys`, `clock`: the calls into `sha2`, `base64`, `qos_hex`,
    `serde_json`, `axum::http`, `qos_p256`, `p256` and the system clock,
    each behind a small trusted wrapper whose contract states what the
    crate documents.
  - `harness`: the decisions of the integration-test harness (port search,
    bind wait, binary path, base URL).
- `app/` is the server around it: axum routing, tower layers, HTTP clients,
  serde copies of the library's types, and the process-spawning test harness.
- `tests/` runs the library on concrete scenarios: signed responses and
  their verification, Turnkey stamps, the notary's receipts, the encodings
  and the harness's decisions.
