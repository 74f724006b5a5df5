# Ore Dock CMMS core

The verified core of a maintenance-management service backed by DynamoDB:
assets, work orders, maintenance schedules and requests, users, roles and
permissions, vendors and notifications, with the rules of their life cycles
and their encoding as DynamoDB items.

- `src/` is the library, verified with Verus. `models/` holds one module per
  entity; `item`, `fields`, `time`, `numeric`, `decimal`, `json`, `text`,
  `strlist`, `ieee` and `pattern` hold the values and conversions the entities
  are built from; `tables` defines the DynamoDB tables; `store` the errors reported for
  failed store calls; `config` the settings.
- Every entity states, as a proof, that reading it back from the item it is
  written as gives the same entity, and most state it in the `ensures` of
  `to_item`. Where an entity holds JSON text, the law holds for text already in
  the form `serde_json` writes; quiet hours read back on whole seconds; a work
  order's notes read back where they agree with its completion notes; an
  address, a maintenance cadence and a template variable read back from the
  values they are written as.
- `app/` is the program around it: settings from the environment, the
  DynamoDB client, table creation, the repository, and the floating-point
  attributes, which the library keeps as bit patterns.
- `tests/` exercises the library with the real outside crates linked.
