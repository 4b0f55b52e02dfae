# tikv_doc_store

A JSON document store on TiKV, used from Node.js.

- `src/` is the verified library: project-scoped keys (`keys`), reading stored
  bytes as documents and retrying failed writes (`documents`), shaping scan and
  batch answers (`batch`), choosing how to connect (`client`), new keys
  (`ids`), error texts (`error`), and the text and JSON helpers they rest on
  (`text`, `json`).
- `app/` is the Node.js binding: it talks to TiKV, sleeps between retries,
  logs and reads the configuration, and asks the library for keys and answers.
