# cookycardz

The decision logic of the CookyCardz desktop back end, verified with Verus.

- `src/` — the library. Each user-facing operation (checking the session,
  signing in and out, the cloud synchronisation of recipes, tags and
  schedules, backing up and restoring the app-data directory) is a state
  machine: a `*_start` function gives the first action, a `*_step` function
  takes the outcome of that action and gives the next state and action. Each
  step function is proved equal to a `*_next` specification, and proof
  functions (`lemma_*`) state what every run respects: it ends, it deletes or
  overwrites only what it should, and it asks the user before destroying
  local data.
- `app/` — the Tauri commands that drive the machines: they talk to the
  database, the API, the file system and the dialogs.
- `tests/` — scenarios on concrete values.
