# sys_menu

The menu service of a system administration back end, verified with Verus.

- `src/` is the library. It describes the queries the service puts to the
  menu table (`query`), builds the records that a creation or a change stores
  (`record`, `service`), decides the answers and refusals (`error`,
  `service`), and turns menu rows into the nested menu tree of the front end
  (`tree`, `text`). Identifiers come from `scru128` and time stamps from
  `chrono` (`outside`).
- `app/` runs the service against the database with sea-orm: it reads and
  writes, and hands each decision to the library.
- `tests/` exercise the library on concrete values.
