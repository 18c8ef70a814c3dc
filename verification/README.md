# aracari

The editing logic of the Aracari particle-system editor, written in Verus:
every function under `src/` carries a contract that Verus proves.

- `src/` — the verified library: project and emitter editing, the inspector
  state and its bindings, text and label handling, colors, the widgets'
  state machines, and the integer side of the GPU simulation (uniform codes,
  collider buffer, bind-group planning, workgroup counts).
- `tests/` — tests of the library on concrete values.
- `app/` — a command-line front end that reads and writes project files
  (RON) and holds the floating-point parts of the model: curve and gradient
  sampling, texture baking and content keys.

Text is modelled as sequences of characters; Unicode classification, case
mapping and sentence casing are delegated to std and to `inflector`, and the
results of those calls are named in the contracts rather than re-specified.
