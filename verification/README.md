# brute_http

The verified core of Brute, a service that records authentication attempts
against a server, enriches each attempt with what an IP information service
knows about its address, and keeps running statistics (top usernames,
passwords, addresses, locations, credential pairs, and hourly, daily, weekly
and yearly counts).

- `src/` is the library, proved with Verus:
  - `buckets`: the periodic counters (when a row is counted up, when a new one opens);
  - `records`: attempts, address details and IP service answers, with their views;
  - `enrich`: the record built from a service answer, and the choice between
    reusing recent details and asking the service;
  - `stats`: the increments one report makes;
  - `report`: a report as a state machine (event in, next state and action
    out), with the laws of whole runs;
  - `admission`: the checks of the HTTP endpoints that report attempts;
  - `listing`: the limit and error messages of the listing requests;
  - `reporter`, `error`, `ids`: the reporter types, the service's errors, and
    row identifiers (random UUIDs, the one trusted call).
- `app/` is the server around it: actix actor and routes, PostgreSQL through
  sqlx, the IP information client; it performs the actions that the report
  machine asks for and hands back the outcomes.
- `tests/` runs the library on concrete values.
