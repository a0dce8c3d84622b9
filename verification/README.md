# kdash troubleshooting library

Verified core of a Kubernetes dashboard's troubleshooting view.

- `src/` (Verus): rule sets and rules, the pod-phase rule, the per-resource
  checks for pods, persistent volume claims and replica sets, the listing
  order of findings (a stable sort by severity, category name and resource
  name, proved sorted, stable and unique), event rows, and the text helpers
  they use.
- `app/` (plain Rust): conversion of `k8s-openapi` objects into the library's
  resource values, and `ratatui` rows and tables built from the library's
  row cells.
- `tests/`: scenarios run against the compiled library.
