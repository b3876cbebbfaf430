# eventmap

Logic of an event-map pipeline, verified with Verus: a collector that pulls
events from two providers, normalises them, geocodes and stores them, and a
small API server that serves stored events to a web map.

- `src/` — the verified library:
  - `models` — the providers' and the geocoding service's records;
  - `etl` — provider A and provider B transformations, query addresses, paging;
  - `event_fetcher` — provider B records without attendance estimates;
  - `text_processing` — number and link extraction, venue attendance table;
  - `datetime` — local/UTC time reading and the one-week query windows;
  - `geocoding` — geocoding request messages, answer text, coordinate splitting;
  - `display` — the map server's labels (times, attendance);
  - `database`, `collector`, `config` — source names, insert tallies, credentials;
  - `chars`, `numbers` — string and decimal helpers with their specifications.
- `app/` — the program: HTTP, PostgreSQL, JSON, the async runtime and the
  `serve` mode for the API server.
- `tests/` — tests of the library.
