# webadmin — principal listing logic

The verified logic of the directory page that lists accounts, groups and
mailing lists, written in Verus.

- `src/text.rs` — decimal numbers and counted nouns ("2 accounts").
- `src/principal.rs` — principal types, principals, server errors.
- `src/route.rs` — route and query parameters (kind, page, search filter),
  the listing request and the navigation links.
- `src/listing.rs` — title, headers, toolbar labels, confirmation dialogs,
  messages, and what the result area shows.
- `src/fetch.rs` — the request loops (loading a page: listing then
  gathering; deleting names) as state machines driven by the caller.
- `src/selection.rs` — the selected rows, and the deletions a confirmation starts.
- `src/row.rs` — what one row shows, and its action menu.
- `app/lib.rs` — the asynchronous drivers of the request loops over a
  transport, and the quota percentage, which is computed in floating point.
