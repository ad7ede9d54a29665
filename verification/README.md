# Z3 RPC Router

A single JSON-RPC endpoint on top of the Zebra and Zallet RPC servers.

- A request for a method of Zebra is forwarded to Zebra, one for a method of Zallet to Zallet,
  and one for a method that neither lists to Zebra.
- At startup the router calls `rpc.discover` on both and merges the two OpenRPC schemas. It
  serves the merged schema under `rpc.discover`.
- The answer to a preflight request, the merged schema and the reply of a backend carry the CORS
  headers that a browser needs. The router's other answers (health check, 405, 502) carry none.

## Layout

- `src/` is the verified library. `schema` merges, `routing` and `forward` decide where a request
  goes and what is sent, `response` makes the answers, `handler` ties these together as a machine
  of phases, events and actions, `config` and `defaults` hold the settings, and `discover` the
  call at startup. `laws` states what holds of the router as a whole. `json` and `headers` hold
  what is believed of `serde_json` and `http`.
- `app/` is the program around it: sockets, HTTP, the environment and the log.
- `tests/` runs the library on concrete values.

## Settings

`ZEBRA_URL`, `ZALLET_URL`, `ZAINO_URL`, `RPC_USER`, `RPC_PASSWORD`, `CORS_ORIGIN` and
`LISTEN_PORT`, each with a default in `src/defaults.rs`.
