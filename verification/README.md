# spicy_launcher_cli

The decision logic of the Spicy Launcher command line, verified with Verus.

- `src/release.rs`: games, releases and release files, with their views.
- `src/lookup.rs`: version normalization, the list of offered versions, and
  `select`, the specification of which release a command works on.
- `src/error.rs`: the launcher's errors and the text that explains them.
- `src/paint.rs`: terminal colors, through the `colored` crate.
- `src/listing.rs`: marking installed releases, the lines of the release list,
  and the texts of progress stages.
- `src/flow.rs`: the commands as a step function from a state and the result of
  outside work to the next state and the next outside work.
- `src/app.rs`: `App`, which chooses releases and steps the commands.
- `src/laws.rs`: properties of the library proved over the specifications.
- `app/`: runs the commands: it defines the `Services` and `Progress` traits through
  which the release server, the local storage and the progress display are reached
  (an embedding program implements them), prints to the terminal, and logs.
