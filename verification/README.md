# conduit

The logic of a Conduit (RealWorld) front end, verified with Verus.

- `src/` is the library. `form` and `article_editor` hold forms whose fields
  are kept, one per key, in an `indexmap::IndexMap`, with trimming and
  validation; `route` turns routes into URL paths and back; `request` builds
  the paths and queries sent to the server and keeps what can be read of its
  answers; `home` and `profile` decide how the two pages answer what happens
  to them and say, as commands, what is to be done; `entity` holds the small
  values these pass around; the crate root holds the application's step:
  which page is shown, how a change of route or a message changes it, and
  what is to be done; `text` trims, joins and writes numbers.
- `tests/` runs the library on concrete values.
- `app/` is the browser side: URLs, navigation and requests through `seed`,
  and the register body written out by `serde`.
