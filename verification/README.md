# bpfctl

`bpfctl` is the command line client of the bpfd daemon, which loads eBPF
programs and attaches them to XDP, TC, tracepoint, kprobe and uprobe hook
points.

The crate is split in two:

- `src/` is a library verified with Verus. It holds the program model
  (program types, "proceed on" actions, pull policies), the reading of
  command line values (`KEY=VALUE` metadata, `NAME=HEX` global variables,
  base64 registry credentials), the construction of every request sent to
  the daemon, the choice of the next daemon endpoint, and the tables that
  `list` and `get` print. Calls into the hex, base64 and
  comfy-table crates stand behind small trusted wrappers in `codec.rs` and
  `table.rs`, each with a contract taken from that crate's source.
- `app/` is the program: argument parsing with clap, the configuration
  file, the gRPC connection to the daemon, and printing.

Module map of `src/`: `bpf` (program model), `text` (rendering and
splitting text), `codec` (outside calls), `keyed` (maps with text keys),
`messages` (daemon messages), `cli` (commands and what they mean),
`parse` (command line values), `table` (output tables), `request`
(requests, endpoints, lookups), `report` (error and success texts).
