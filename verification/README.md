# linkblocks

A federated bookmark manager. This crate holds its core as a library whose
behaviour is stated in `requires` / `ensures` contracts and proved with Verus,
and a thin program around it.

- `src/` — the verified library: identifiers and their text form, URL
  handling, form validation and its error reports, password checks, the
  authorization rule for links between lists, search pagination, migration
  checks, API keys, page previews, and the ActivityPub activities with the
  checks applied to received ones. Calls into outside crates (`url`, `uuid`,
  `time`, `argon2`, `percent-encoding`, `garde`, `link-preview`,
  `activitypub_federation`) go through small trusted wrappers whose contracts
  say what each call is relied on for.
- `tests/` — tests of the library on concrete values.
- `app/` — the program: command line, database queries, sessions, the web
  server and the federation handlers. It reads and writes, and hands plain
  values to the library, which decides.
