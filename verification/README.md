# archangel

The verified core of archangel, a host agent that lets a language model
propose system actions while a separate executor decides, sandboxes and
records them.

- `src/` is the library, checked by Verus: identifiers and secrets, the
  signed and hash-chained audit log and its verifier, signed bundle
  manifests and argument schemas, the operator trust set, the
  configuration baseline, the egress allowlist, the denylist/allowlist
  policy engine with path normalization, the executor's request protocol
  (framing, signed envelopes, replay and rate limiting, every gate of the
  request pipeline and their order, as a state machine the program drives), the sandbox plan (seccomp profiles and their BPF
  rules, capabilities, cgroup limits), snapshot backend selection, and the
  model backends' URL, size-cap and response handling.
- `app/` is the executor program around it: command line, sockets, CBOR and
  TOML/JSON encoding, files, processes, cgroups, BTRFS snapshots and HTTP;
  for each request it performs the work the state machine asks for and
  hands the outcome back.
- `tests/` exercises the library on concrete values.
