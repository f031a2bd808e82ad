# zokrates_cli (nova command)

The `nova` command of the ZoKrates command line, verified with Verus.

- `src/nova.rs`: the steps of the command (`setup`, `prove`), their names and
  help order, routing of a parsed subcommand to its handler (`dispatch`,
  `exec`, `try_exec`), the declaration of the command (`subcommand`), and the
  laws on them; `lemma_declared_subcommands_route` ties the declaration to
  the routing.
- `src/clap_items.rs`: the `clap` types and calls used, each behind a trusted
  item whose contract is read against the `clap` 2.34 source.
- `tests/nova.rs`: tests that run the declaration through `clap`'s parser.
