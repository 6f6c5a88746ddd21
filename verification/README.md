# sinopac_nt

A SinoPac Securities (Taiwan: TWSE / TPEX / TAIFEX) adapter core for
NautilusTrader, talking to a self-hosted FastAPI gateway over REST and
WebSocket.

- `src/` is the verified library (Verus): venue enumerations, gateway URL and
  endpoint rules, TWSE/TAIFEX tick schedules and contract multipliers,
  Taiwan-time conversion, instrument terms of futures and options, order-book
  level selection, the WebSocket feed subscription state machine, the per-code
  bid/ask emit flags and the plan of what each streamed message becomes.
- `app/` is the runtime around it: the HTTP and WebSocket clients, serde wire
  types, and the construction of NautilusTrader's float-valued prices,
  quantities and instruments.
- `tests/` exercises the library on concrete values.
