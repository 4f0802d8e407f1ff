# vp_cli

The decision logic of the `vp` command line's app-command target
resolution, verified with Verus, and the I/O around it.

- `src/` is the verified library: which subcommands are app commands and when
  their arguments are bare (`args`), the likely-runnable signal (`runnable`),
  the ranked package rows (`rows`, `order`), `defaultPackage` (`default_package`),
  the decisions of target resolution and of `needs_elicitation` (`resolve`),
  the state machine that orders those decisions (`resolver`),
  interactive-terminal detection (`interactivity`) and the `vpr` shorthand
  for `vp run` (`vpr`).
- `app/` reads configs and workspaces, probes directories, runs the picker,
  prints and changes directories, calling the library between those steps.
- `tests/` runs the library on concrete inputs.
