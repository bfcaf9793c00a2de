# cornucopia type registrar

The part of Cornucopia that decides, for each PostgreSQL type met in the queries,
which Rust type the generated code uses, and how that type is written when owned,
borrowed, passed as a parameter or sent to the database.

- `src/` is verified with Verus. `pg_type` describes PostgreSQL types,
  `cornucopia_type` the Rust counterparts and every string that code generation
  asks of them, `config` the user's type and domain mappings, `gen_ctx` where code
  is generated, `type_registrar` registration itself (specified by
  `spec_register`), `type_map` and `naming` the calls into `indexmap` and `heck`,
  and `laws` what holds of registration across calls.
- `app/` holds what talks to the database: converting `postgres_types::Type`,
  the queries against `pg_type`, and the error type with its `miette` diagnostics.

The original registrar also hands each type it meets to a dependency analysis that
lives in the code generator (`codegen::DependencyAnalysis`). That analysis is not
part of this crate, so registration here records only the types themselves; the
configuration (`config`) and the code-generation context (`gen_ctx`) are kept to
what registration reads of them.
