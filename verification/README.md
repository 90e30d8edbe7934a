# sqlite_editor

A small web application for editing the schema of an SQLite database
(create and drop tables, add and drop columns), guarded by RS256 bearer
tokens.

- `src/` is the verified library (Verus): identifier validation, the SQL
  statements sent for each schema change, reading table and column
  listings out of the rows a query yields, bearer-token extraction, token
  claims, parsing the RSA key pair from its PEM files, the JWK of the
  signing key, the admission of a request (header, token, form fields),
  and the replies that the HTTP handlers give. The `Database` handle keeps
  a ghost record of every statement sent through it and of the rows the
  last query yielded, so that the contracts can say which statement each
  operation sends, in what order, that a listing is exactly what was read,
  and how each outcome is answered. Which rows a query yields, and what a
  statement does to the schema, are SQLite's.
- `app/` is the program around it: the actix-web server and handlers,
  reading, generating and writing the RSA key files, token encoding and
  decoding with `jsonwebtoken`, and template rendering with `tera`.
- `tests/` exercises the library.
