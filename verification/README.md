# assistant_cli

A browser for the lists of an assistant, in the terminal. It shows the lists of a server in a
sidebar and their items in a table, searches them, runs queries on them, and adds, edits, completes,
moves and deletes items. A live connection tells it when a list changes elsewhere.

- `src/` is the browser itself, verified with Verus: its state, what each event and each reply of
  the server does to it, what it asks of the server, and what the screen shows.
- `app/` is the program around it: the terminal, the requests, the live connection and the drawing.
- `tests/` runs the library on concrete values.

The state of the browser is `ListsTableBrowser`; its model is `Browser`. An event goes to `update`,
which changes the state and returns an `Action`. Where that is a request, the reply goes to
`resume`, which may ask for more. `poll_ws_events` takes what the live connection reports, and
`render` makes a `Screen` of the state. Every one of them is specified as a function on `Browser`,
and the laws in `laws.rs` and `valid.rs` are stated of those functions.

Run it with `ASSISTANT_URL=http://localhost:3000`. `LISTS_FILTER` may name the lists to show: words
separated by commas, one of which the name of a list has to hold.
