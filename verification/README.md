# webserver

The query side of a transaction indexer's web service, verified with Verus.

- `src/` is the library: the transaction kinds and their names (`kind`), the
  text utilities that read comma-separated query parameters (`text`), the
  query parameters and their validation (`dto`), the transactions that the
  endpoints return (`entity`), the token filter over the JSON data of
  transfers (`token_filter`, over the parser of `serde_json` in `json`), the
  decisions and response assembly of the endpoints (`handler`), the
  descriptions of the database queries and the SQL text of the token filter
  (`repository`) and pagination (`pagination`).
- `app/` is the HTTP service around it: axum handlers, diesel queries over a
  connection pool, and the serde forms of the parameters and responses.
- `tests/` exercises the library on concrete values.
