# deadball

A library for running leagues of the Deadball tabletop baseball game, verified
with Verus, and a command-line program around it.

- `src/` is the library: players and their traits, pitch dice and grades,
  teams and their scores, leagues and league templates, schedules split into
  rounds, pennant races, and the texts written for all of them. Every function
  carries a contract that Verus proves; the few calls into `rand`, `itertools`,
  `name_maker` and the error types of `rusqlite`, `serde_json` and `inquire`
  stand behind small trusted items with their own stated contracts.
- `tests/` runs the library on concrete values.
- `app/` is the program: the SQLite database, the prompts, the JSON forms of
  the stored values, and the few computations done in floating point.
