# rustyverse

A small file-sharing web service. The library (`src/`) holds its logic, verified
with Verus: finding a request's session token, session claims and their JSON
form, signing secrets, password hashing (Argon2id), identifiers extracted from
store results, content identifiers of uploads and where their files are kept,
the error bodies the service answers with, and its routing tables.

`app/` wires the library into a Rocket web server with a GraphQL endpoint
(juniper), and a command line; it reads the Dhall configuration, decodes and
signs JSON web tokens, and does the file and network I/O.

`tests/` runs the library against the real outside crates.
