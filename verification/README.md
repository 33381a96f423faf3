# Iceberg table providers for DataFusion, verified

`src/` is the library, verified with Verus: what a table provider offers, what it plans for a
scan or an append, and how a planned append is committed once.

| module | holds |
| --- | --- |
| `provider` | `IcebergTableProvider`, backed by a catalog |
| `static_provider` | `IcebergStaticTableProvider`, for one state of a table |
| `scan` | the planned scan of a table |
| `insert` | the stages of planning an append |
| `commit` | the commit of a planned append, and when a rerun commits nothing |
| `schema`, `error`, `text` | the schema on offer, the errors, and their texts |
| `laws` | what holds of the providers as a whole, as proof functions |
| `outside` | the calls into `iceberg`, `arrow` and `std`, with what is believed of them |

`app/` holds the providers as DataFusion uses them: it loads tables from a catalog and makes the
plans out of the engine's operators, which come through the trait `Operators`.

`tests/` runs the library on tables that `iceberg` loads and builds.
