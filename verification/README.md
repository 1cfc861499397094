# blueprint

A terminal tool for planning a Rust project before writing it: its
description, its structs with their fields, its enums with their variants,
its traits with their methods and arguments, and its command-line commands.
The plan is saved as `src/.blueprint.json` and `src/blueprint.md` in the
nearest directory that holds a `Cargo.toml`.

- `src/` is the library, verified with Verus: the data model and its
  preview lines (`data_types`, `text`), the command-line arguments
  (`commands`), the state between key presses (`state`), and for each page
  the texts its editor starts with and the way it answers a key (`pages`).
  Each page's answer is stated as a transition of the state's mathematical
  view; the laws (moving back undoes moving forward, what an editor writes
  it reads back, leaving a page cleans the list once and for all, joining
  the split description gives it back) are proof functions beside the code.
- `app/` is the terminal front end: it reads keys, draws the pages, keeps
  the text inputs, and loads and saves the plan.
- `tests/` runs the library on concrete values.
