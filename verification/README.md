# powerhouse

The deterministic core of a Linux desktop toolkit: a tool registry, a policy
and execution gate, parsers for `/proc` and `systemctl` text, bounded
storage, process, network and service analyses, health alerts with their
history, guidance and action pipeline, and an audit trail of safe actions.

- `src/` is the library, written in Verus. Every function carries a
  contract, and the properties that span functions (policy decisions,
  alert state, bounded history, action gating, ranking order) are stated
  and proved as public `lemma_*` proof functions.
- `tests/` exercises the library on concrete inputs.
- `app/` is the thin unverified shell: reading `/proc`, `statvfs`,
  `systemctl`, floating-point rates and thresholds, JSON persistence, and the
  desktop commands that tie these to the library.
