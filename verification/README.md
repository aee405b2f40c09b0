# roe

The `roe` crate holds the logic of `roe-cli`, a command-line client for the
roe HDDS services (DeployManager, ManagedApplication, ApplicationFactory,
ConfigurableApplication), and of the two services it talks to, proved with
Verus.

- `src/text.rs`: character-level helpers (splitting at the first occurrence
  of a character, decimal notation, `i64`/`bool` parsing, joining).
- `src/commands/`: per subcommand, the request built from command-line
  values, the rows and tables that show the reply; `config.rs` holds the
  `NAME=TYPE:VALUE` item syntax.
- `src/server.rs`: the decisions of the DeployManager and ManagedApplication
  services.
- `src/table.rs`: table rendering through `tabled`.
- `src/client.rs`: the choice of a static DDS peer.
- `app/`: the `roe-cli` program: argument parsing, JSON, DDS-RPC calls and
  printing.
