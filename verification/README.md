# morlana

nix-darwin utilities: build and switch configurations, bootstrap a new
system, uninstall nix-darwin, and wipe old profile generations.

The crate is split in two:

- `src/` is a library verified with Verus. Each subcommand is a step
  function (`cli::Command::action`) that, from its progress and the answer
  to its last request, decides the next request (`cli::Action`). The
  commands those requests run, the parsing of what they print, and the
  string and path handling in between are verified functions too
  (`stages`, `util`, `text`, `path`). `cli::guarantees` proves properties
  of whole runs: confirmation before any change to the system, activation
  only after the profile is set, `/etc` files put back only when they were
  moved aside by nix-darwin and their original name is free (and every such
  file checked), errors ending the command, and every run ending.
- `app/` is the binary: it parses the command line with clap, performs each
  request (processes, files, terminal output) and feeds the answer back.
