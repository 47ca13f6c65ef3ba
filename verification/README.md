# librarian

A terminal browser for archive.org collections, written as a verified Verus
library (`src/`) and a thin terminal front end (`app/`).

`src/` holds the logic, each function with a contract proved by Verus:

- `app`, `update`, `event`: the application state, and how each key press
  changes it and which action (fetch, download, save) it asks for;
- `settings`, `config`, `paths`: the settings model and defaults, where the
  settings file and the librarian's directories live;
- `archive_api`, `archive_org`: search queries and URLs, the retry policy of
  the bulk collection search, the classification of failed requests, and how
  metadata replies become item details;
- `ui`: the texts, notices and status line that the screen shows;
- `gamepad`: focus movement and selection in the item grid;
- `text`: trimming, editing at a cursor, ordering and sorting of texts;
- `laws`: properties that relate several operations, such as that key
  handling keeps the application's state invariant, and that Down then Up in
  the settings view gives back the selected entry.

`app/` does the terminal, network and file work (ratatui, crossterm,
reqwest, tokio, serde, toml, directories) and hands plain values to the
library.
