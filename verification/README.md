# mir_ty_json

A Verus library that renders what a compiler knows about a program as JSON: types, instances,
data types, generic parameters and constant values.

- `ctxt`: the compiler session as plain data. `validity` decides whether a session is consistent.
- `json`: JSON documents as mathematical values, and the calls into `serde_json` that build them.
- `table`, `text`: small collections, and numbers as text.
- `state`: the state of a rendering: the tables of types and allocations, and what is in use.
- `docs`, `values`: what the JSON forms are, what they refer to, and when they exist.
- `names`, `types`, `instances`, `adts`, `generics`, `consts`, `render`, `to_json`: the code that
  renders.
- `laws`: what holds of names, JSON forms and states as a whole.

Every function is proved against its contract. What is trusted is the behaviour of `serde_json`,
as stated by the wrappers in `json`.

Called from unverified code in a consistent session, rendering is meant to fail with a panic where
it gets to something that cannot be rendered: a type that cannot be shown, an answer that is
missing, or a value that was not read. The code tests for these at run time and ends in
`unreached`. That such a test is never met where a function's `requires` holds is proved; that the
tests catch every call that breaks a `requires` is not.

`app/` asks the compiler: it fills a session, and reads constants with the compiler's interpreter.
It needs the compiler's own crates.
