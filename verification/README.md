# matrix_bot

The logic of a Matrix chat bot for Hochschule Furtwangen: it shows the weekly
menu of Mensa Furtwangen and watches elements of web pages, reporting when
their value changes. The library in `src/` is verified with Verus; `app/` is
the program around it (Matrix client, HTTP, SQLite, files, timers).

- `src/text.rs` – white space, trimming, searching, replacing, joining.
- `src/access.rs` – admins and allowed users, with the laws that admins stay
  allowed and that adding/removing affects only the user named.
- `src/commands.rs` – `help`, `mensa`, `allow`, `disallow`.
- `src/mensa.rs` – reading meals from the menu page and formatting them.
- `src/alerts/` – the alert record, the `alerts` command as a conversation
  with the alert store, fetching a watched value, and scheduling.
- `src/router.rs` – turning an incoming message into a command and deciding
  who may run it.
