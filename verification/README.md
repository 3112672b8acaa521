# gh-inbox

A local web inbox for GitHub notifications: a background loop syncs
notifications into SQLite, and a small HTTP server offers them to a browser
front end, with pull request details fetched through GitHub's GraphQL API.

## Layout

- `src/` — the verified library (Verus). It holds the decisions the service
  makes about notifications, pull requests and requests:
  - `notifications` — the notification state machine: how a synced snapshot
    row merges with local read/archive state, local mutations, and full-sync
    reconciliation, with its laws as proof functions.
  - `sync` — which sync to run, how GitHub notifications become rows, what a
    sync tick announces, and which viewport pull requests to refresh.
  - `graphql` — the pull request GraphQL response and its conversion.
  - `pr_cache`, `pr_detail`, `pr_status` — what a fetched pull request caches,
    the detail view (comment threads), status and CI rules, and the SQL
    filter conditions.
  - `inbox_api`, `preferences`, `api_errors`, `server_rules`, `config`,
    `teams`, `link_header`, `markdown` — request parsing, pagination,
    preference validation, error responses, static-file and session-token
    rules, configuration, team slugs, pagination links and Markdown
    sanitizing.
  - `text` — verified string helpers the above share.
- `app/` — the program around it: the axum server, SQLite access (the SQL
  itself), the GitHub client, the sync loop, the serde forms of the library's
  types, and comrak's Markdown-to-HTML step, whose raw-HTML option the
  library's source rules cannot name; the library sanitizes comrak's output.
- `tests/` — tests of the library on concrete values.

The front end is served from `$GH_INBOX_FRONTEND_DIR` (default
`frontend/dist`).

## Design notes

- Comment threads are grouped with sorted `Vec` keys and the viewport is a
  `Vec` of `(repository, number)` pairs, not a `BTreeMap<String, _>` and a
  `HashSet<(String, i64)>`: vstd specifies those collections only for keys
  with an ordering or hashing model, and `String` (and tuples holding it)
  has none, so nothing could be proved of them.
- A read notification seen for the first time starts archived only on a
  full sync; on an incremental sync it lands in the inbox, read.
- Excluding a status hides pull requests with that status and keeps rows
  that have no pull request (`pr.id IS NULL OR NOT ...`).
- Reviews carry no avatar (their avatar field is always `None`): review rows
  do not store one.
- A cached pull request's `teams` stays unset: the teams asked to review it,
  which it would be intersected with, are not part of the GraphQL data that is fetched.
