# nh-system

The decisions behind `nh system`, which builds System Manager configurations, activates them and
loads them in a REPL. The library in `src/` is written in Verus: every function has a contract, and
the contracts are proved.

A run is a state that is asked for its next `Action` and told an `Event` in reply, until it asks to
finish. Nothing in the library touches files, processes or the network.

- `system`, `rebuild`, `repl`: runs of `nh system`, step by step.
- `select`, `search`, `attribute`: what is built or loaded, and in which order candidates are tried.
- `command`, `session`: commands, actions and events as data.
- `args`, `installable`, `os_text`, `error`, `text`: the values that the others work on.
- `*_laws`, and the functions named `law_*` elsewhere: what holds of every run, every choice and
  every attribute path.

Two facts are taken on trust: what `str::trim` of the standard library returns, and that
`nix::unistd::Uid::is_root` tells the user zero from the others.

`app/` holds the command line and carries out the actions with the services of `nh_core`, the crate
that the subcommands of `nh` share.
