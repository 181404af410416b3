# openworkspace_api

The policy, allocation and parsing core of the OpenWorkspace API server,
written in Verus: every function in `src/` carries a contract that Verus
proves, and the laws the server relies on (quota admission, the effective
permission context, confinement of persistent-volume paths, `/30` subnet
segments, the metrics tiers, keep-time reclamation, redaction, login) stand
as proof functions next to the code they speak of.

- `src/` — the verified library. Outside crates (`base64`, `bcrypt`,
  `jsonwebtoken`, `rand`, `uuid`) are called through a few trusted wrappers
  whose contracts are stated in their doc comments.
- `tests/` — tests of the library on concrete values.
- `app/` — the host agent around it: environment, `/proc` and `statfs`
  reads, TCP probes, lockfiles, `nsenter`, files and float-valued metrics.
