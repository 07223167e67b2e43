# deribit_websocket

A client for the Deribit WebSocket API (JSON-RPC 2.0), written in Verus.

The library in `src/` is verified: every public function carries a
`requires`/`ensures` contract and the laws the client relies on are proved
as public proof functions. It holds

- `json` — the JSON document model the messages carry;
- `message` — request building (ids counting up from 1) and the reading of
  responses and notifications;
- `model` — subscription channels and their wire names (with the
  name/parse round trip), the subscription manager, connection and
  heartbeat state, mass-quote validation and the order enumerations;
- `client` — reconciliation of the local subscription view with what the
  server confirmed, and the typed reading of results;
- `connection::dispatcher` — the routing rules of the dispatcher task as a
  state machine from event to action (responses reach their waiter once,
  notifications and late responses are forwarded, stopping answers every
  waiter);
- `error` — errors, their messages, and the redaction of secrets from the
  request parameters and responses an error keeps;
- `config` — the configuration built from environment settings and its
  builders;
- `tls`, `logging`, `callback` — crypto-provider installation, log-level
  selection and message-handler rules.

`app/` is the asynchronous shell around it: the socket, the dispatcher
task loop, the session, the client façade, the serde forms of the
messages, and the records that carry decimal quantities.

`tests/` exercises the library on concrete values.
