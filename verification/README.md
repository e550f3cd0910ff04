# shengsuanyun

Login and model catalog logic for the ShengSuanYun (胜算云) model router.

- `src/` is a library whose functions carry contracts that Verus proves: how a login starts, how
  its port is bound, what the login server answers to each request and when it ends, how an
  authorization code becomes stored tokens, and which models of the catalog are offered, and how.
- `app/` does the I/O around it: sockets, tasks, HTTP requests, and (de)serialization. The host
  program brings its auth storage and its HTTP transport.
- `tests/` runs the library with the outside crates linked.

What outside crates do (URL parsing, percent-encoding, JSON text, header checks, status texts and
the clock) stands behind small functions, each with a doc comment that says what is trusted of it.
