# jellyflow_open_gpui

Adapter logic between a semantic node-graph schema and an Open GPUI host,
written in Verus: every function under `src/` carries a contract that
Verus proves.

- `src/` — the verified library:
  - node data as JSON values: dot-path and JSON-pointer reads and writes
    (`json_binding`), content comparison (`json_compare`), previews
    (`preview`);
  - component controls, inspectors and their edit plans, select options
    keyed by their values' JSON text from `serde_json` (`controls`,
    `inspector`, `authoring`);
  - action menus, their order and dispatch, the dropped-wire insert
    candidates, and the capability claims (`actions`, `ordering`,
    `adapter`);
  - repeatable collections: item ids, labels, port diagnostics and the
    add / remove / reorder / edit plans (`repeatable`, `repeatable_edit`);
  - surface slot order and row layout (`projection`), measurement ids and
    layout-pass coverage (`measurement`, `adapter`), renderer resolution
    (`renderer`), stable element ids (`element_ids`), product presets
    (`presets`) and the host regression reports (`testing`).
- `app/` — host glue that Verus does not see: `serde_json` conversion,
  floating-point view geometry and row rectangles, the dropped-wire menu
  key (it holds the pointer's coordinate), component events that carry
  floats, and serializable copies of the evidence reports.
- `tests/` — tests of the library on concrete values.

## What is not here

The adapter sits on the `jellyflow` node-graph runtime (its graph, store,
schema registry, transactions and connection rules), which this crate
does not depend on. The library holds, as its own types, only what the
adapter reads from that runtime: action, inspector, control and
repeatable-collection descriptors, projected slots and items, and graph
port facts. What needs the runtime itself is absent:

- the report collectors that build product, schema and layout-pass
  fixture reports and the repeatable-lifecycle probes by driving a graph
  store (their gates and final reports are here, under `testing`);
- dropped-wire insert planning and applying, and the connection and
  transform sync planners, which plan graph transactions through the
  runtime's rules;
- rendering with host closures and the renderer host context;
- the repeatable item and surface projections that ask the runtime's
  descriptors for their items;
- the proof crate's node registry, adapter traces and component-tree
  rendering, which are built on the runtime's registry and printed forms.
