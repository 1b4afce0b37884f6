# shopping_kit

Clients for three New Zealand retail storefronts -- Kmart, The Warehouse and
Woolworths -- and the shared plumbing under them, written in Verus. The
decisions a client makes (what a page or an answer says, which request comes
next, what a session or cookie jar holds) are executable functions whose
contracts Verus proves.

## Layout

- `src/` -- the verified library.
  - `text`, `measure`: string and number helpers with their specifications.
  - `netkit`: cookies and the kept-cookie jar, JWT claims, state paths, the
    secret store's naming, external commands, transport errors.
  - `kmart`, `twlnz`, `wwnz`: one module per storefront -- endpoints,
    sessions, the login state machines, page and JSON extraction, the wire
    shapes and their conversion into the domain types, errors.
  - Calls into outside crates (`scraper`, `serde_json`, `base64`, `sha2`,
    `rand`, `url`, `shell-words`, `directories`, `keyring`) sit behind small
    trusted wrappers whose contracts name what the call returns.
- `app/` -- ordinary Rust around the library: HTTP clients, file and
  credential-store I/O, serde readings into the wire types, the loops that
  run the login flows, and the few computations on floating point.
- `tests/` -- the tests, one file per module group.

## Checking

Verus verifies `src/`; the tests run against the compiled library with the
real outside crates linked.
