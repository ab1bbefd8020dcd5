# kiro_provider

A client for the Kiro API that spreads requests over several credentials, with its decision
logic verified by Verus.

- `src/` is the verified library. `protocol` models a call as a state machine, `call` runs it,
  `laws` states what holds of every call, and the other modules hold the rules that calls go by:
  rate limits, waiting times, status codes, endpoints, HTTP clients and messages.
- `app/` carries out the decisions: it takes credentials, sends requests, sleeps and logs.
- `tests/` exercises the library on concrete values.
