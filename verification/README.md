# inventory_service

Stock bookkeeping for an inventory web service, verified with Verus.

- `src/` is the verified library: the records (`models`), the stock
  operations and their errors (`services`), the HTTP answers (`handlers`),
  the rules of the standalone server (`standalone`), and the properties that
  hold across operations (`laws`).
- `app/` is the code around it: the mountable inventory module and the
  standalone server, with actix-web routes, the SQLite table through
  sqlx, and the event subscription. Each stock operation reads the counters,
  asks the library what to do, and writes back what it returns.
- `tests/` runs the library on concrete values.
