# todo

A small interactive to-do list manager. Items have a description, an optional
group, an optional due date, an urgency and a progress; groups have a name and
a colour. The list is kept in `nlizmi-todo/data.cbor` in the user's data
directory.

- `src/` is the verified library (Verus): the command grammar of the prompt
  (`command`, and the smaller grammar in `parser`), choosing among options by
  number or name and listing them in order (`util`, `sorting`), the data of the
  list with its orders, its texts and its stored form (`model`, `instant`,
  `style`, `prompt`), string helpers (`text`), and the dialogue of the prompt
  as a state machine from stage and typed line to next stage and reply
  (`session`).
- `app/` is the program around it: reading lines from the terminal, printing
  the replies, and storing the list with `serde_cbor`.
- `tests/` runs the library on concrete values.
