# zed_core

Verified decision logic behind three parts of an editor, written in Verus.

- `src/statement.rs`: the cursor over the statements of a prepared SQLite
  query: stepping through the statements, binding parameters to every
  statement that has them, the query's parameter count, column type codes,
  and reading blob and text columns.
- `src/rows.rs`: the row protocols of a query (execute, map every row,
  exactly one row, at most one row) as a state machine, with laws over whole
  runs.
- `src/theme_preview.rs`: the theme preview's pages, navigation state and
  page content.
- `src/app_menus.rs`: the application menu bar for each release channel and
  operating system, with its contract stated menu by menu.

`app/` runs the statement logic against SQLite through `libsqlite3-sys`:
it performs the FFI calls the verified functions ask for and hands their
results back.
