# mangayomi_server

A sync server for the Mangayomi app: users register and log in, then sync
their library (categories, manga, chapters, trackers), reading history,
chapter updates and settings through JSON endpoints backed by MongoDB.

## Layout

- `src/` is the verified library (Verus). It holds the rules of the server:
  how numeric settings resolve from their raw text, how sync payloads are
  accepted or refused, how IDs are validated, the steps a sync takes and what
  they do to the stored entities (conflict resolution by `updatedAt`,
  idempotency), the bookkeeping of bulk upserts and the choice of upsert
  strategy from the server version, and the decisions of the account
  operations (registration, login, profile update, deletion).
- `app/` is the server around it: the actix-web endpoints, sessions and rate
  limiting, the MongoDB calls that carry out the library's sync plans, and the
  serde forms of the library's types.
- `tests/` exercises the library on concrete values.
