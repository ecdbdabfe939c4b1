# ghdl_design

Data structures for a GHDL elaborated design (instances, object slots,
signals, processes, drivers, sensitivities, connections, disconnections,
types, values, memories and source counts), verified with Verus.

- `src/` is the verified library: the ID types, the node types, the packed
  design tables with their lookups and the rules for adding nodes, and the
  Base64 decoder used for memory blobs.
- `app/` reads the JSON-lines export (serde, serde_json, anyhow, tracing) and
  hands each parsed node to the library.
- `tests/` runs the library on concrete values.

A design is *packed* (`Design::wf`) when every ID-addressed table holds the
entry for ID `n` at index `n - 1`. `Design::add_node` keeps a design packed,
fills skipped instance IDs with placeholders, and refuses any other node whose
ID is not the next one of its table, leaving the design unchanged.
