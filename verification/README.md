# railops

The logic of the RailOps web front end — a passenger kiosk and a staff
console for schedules, orders, staffing, credentials and business rules —
as a library verified with Verus, and the Yew application around it.

## Layout

- `src/` — the verified library.
  - `shared` — roles, quality scores (fixed-point, through `rust_decimal`),
    pagination parameters, response envelopes and the business constants.
  - `decimal` — the two plain parts of a decimal and the `rust_decimal`
    operations the scores use.
  - `api` — request signing (HMAC-SHA-256 through `hmac`, `sha2` and `hex`),
    error values, and every endpoint's path and body; credential ids are
    UUIDs written through `uuid`.
  - `auth` — the session state machine and what it writes to storage.
  - `components` — status badges, class strings and the toast stack.
  - `pages` — what each kiosk and console page derives from its data and
    its controls.
  - `text`, `uri` — string handling: digits, parsing, trimming, UTF-8 byte
    offsets, `encodeURIComponent`.
- `tests/` — tests of the library on concrete values.
- `app/` — the browser program: HTTP with `gloo-net`, session storage,
  serde shapes, and the pages' markup.
