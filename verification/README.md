# qaqh_apps

The logic of the QAQ-Harness programs - the desktop shell, the installer and the
updater - as a library whose contracts are proved with Verus.

## Layout

- `src/bridge/`: the shell's state. `bridge_core` holds it, `reducer` takes over
  what the daemon reports, `sessions`, `commands`, `actions` and `settings` decide
  what the user's wishes lead to, `health` watches the connection, `timeline` and
  `transcript` keep what is on its way to the conversation. `laws` states what
  holds across them.
- `src/chat/`: the conversation as it is shown. `pump` decides what a frame does;
  the other modules turn turns, answers, calls and changes into what is drawn.
- `src/install/`: the installer. Bundles and their checks, the archive at the end
  of the executable, replacing files, registration, the wizard.
- `src/updater/`: staging, applying and taking back updates, and removing the
  product.
- `src/process.rs`, `src/paths.rs`, `src/data_root.rs`, `src/app_log.rs`: what the
  programs share.
- `src/text.rs`, `src/json.rs`, `src/digest.rs`, `src/seed_map.rs`, `src/model.rs`:
  texts, JSON values, digests, maps, and the models they are reasoned about with.
- `tests/`: scenarios on concrete values.
- `app/`: windows, files, processes and the daemon around the library.

## What is taken on trust

`serde_json` parses (`json.rs`), `sha2` and `hex` compute digests (`digest.rs`),
`regex-lite` finds the variables of a path (`install/expand.rs`), and `String::push`
appends a character (`text.rs`). Each of these calls stands behind one function
whose comment says what is claimed of it.

## Time

The library has no clock. Every function that depends on the time takes it as an
argument, in milliseconds.
