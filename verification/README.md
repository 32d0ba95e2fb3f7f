# offst_funder

The funder of a credit network node, with its state, its mutations and the
decisions of its event loop proved against their contracts.

- `src/` is the verified library: identifiers (`ids`), a finite map kept as
  entries with distinct keys (`key_map`), the messages the funder stores
  (`messages`), token channels (`token_channel`), the state of one friend
  (`friend`), the state of the funder and its mutations (`state`), the
  decisions of the funder's event loop (`funder`), invoice file fields
  (`invoice`), and the properties that span operations (`laws`). The calls
  into the `im` crate and the text encodings (`base64`, std decimal) stand
  behind trusted wrappers in `im_collections` and `text_encoding`.
- `app/` runs the event loop over `futures` channels and reads and writes
  invoice files with `toml`.
- `tests/` exercises the library on concrete values.
