# datalog_ir

Intermediate representation of Datalog query plans, verified with Verus.

- `src/plan.rs`: `IRNode`, the plan operators (Scan, Map — named `Project`
  here —, Filter, Join, Distinct, Union), their output schema and the
  indented printout of a plan.
- `src/predicate.rs`: `Predicate`, filter conditions, with the set of
  referenced columns, constant folding (`simplify`) and renumbering of
  columns for a projection (`adjust_for_projection`), and the meaning of a
  predicate on a row (`eval`).
- `src/text.rs`: decimal numbers, indentation and bracketed lists as the
  printout shows them.
- `src/predicate_laws.rs`, `src/plan_laws.rs`: proved properties, such as that
  simplification keeps a predicate's meaning and that a filter pushed through
  a projection is implied on the projected rows.
