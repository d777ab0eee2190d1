# trackhound

A parcel tracker: it reads shipment e-mails, has a classifier extract tracking
and order numbers, registers tracking numbers with 17TRACK, keeps everything in
SQLite and serves it over HTTP.

The decisions are a library verified with Verus (`src/`):

- `status` — shipment statuses, their stored names, reading them from free text
  and from 17TRACK codes;
- `text`, `number` — substring search, prefixes, truncation, and decimal integer
  parsing with the standard library's grammar and error kinds;
- `json` — a plain model of decoded JSON (read from text with serde_json) with
  member, index and pointer lookups;
- `gmail` — headers by lowercase name and the base64url text parts of a message;
- `openai` — the classifier prompt for an e-mail and the reading of its reply body;
- `track17` — statuses and registration outcomes from 17TRACK replies, and the
  batching of numbers into requests;
- `store` — the normalised tracking number shipments are keyed by, and the
  statuses orders and shipments are recorded with;
- `scan` — what a mailbox scan does with each extracted item, and its counts;
- `scan_run` — a mailbox scan as a state machine that names each next step;
- `config` — commands and the settings read from environment variables.

`app/` is the service around it: environment, HTTP clients, SQLite, the API and
the scheduler. `tests/` exercises the library on concrete values.
