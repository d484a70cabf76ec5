# cosmicding

A companion for [linkding](https://github.com/sissbruecker/linkding)
bookmark servers: accounts on one or more linkding instances (or a local
account), their bookmarks aggregated in a local database, searched, added,
edited and removed, and imported from or exported to Netscape bookmark files.

## Layout

- `src/` is the library, verified with Verus:
  - `models/`: accounts, bookmarks, favicon cache entries, the pagination
    cursors over the stored accounts and bookmarks;
  - `provider/`: the linkding API (request addresses, how replies are read,
    the refresh of an account's three bookmark lists, the add-or-update
    sequence with its retries) and the local provider;
  - `utils/`: the Netscape bookmark file reader and writer, with the proof
    that an exported file reads back as the bookmarks it was written from,
    and reading JSON values back as plain text;
  - `app/`: the application model, its messages and the handler of each,
    the menus, dialogs and context drawer;
  - `pages/`: what the accounts and bookmarks pages show;
  - `db.rs`, `escape.rs`, `numbers.rs`, `text.rs`, `time.rs`: storage
    layout, HTML entities, decimal numbers, text operations, dates.
- `tests/`: tests of the library.
- `app/`: a command-line program around the library: the SQLite database,
  the HTTP requests, files, and the loop that feeds the outcomes back to the
  application model.
