# nix_installer (verified core)

The decisions of a Nix installer's actions, verified with Verus:

- `src/distribution.rs`: where the Nix tarball comes from.
- `src/action.rs`: action states, descriptions, and the execute/revert
  bookkeeping of a stateful action, with its laws.
- `src/configure_init_service.rs`, `src/configure_upstream_init_service.rs`:
  the init-system configuration planned for the upstream Nix daemon.
- `src/create_apfs_volume.rs`: planning, describing and the `diskutil`
  arguments of an APFS volume.
- `src/configure_shell_profile.rs`: the start-up file edits and how their
  results are gathered.
- `src/kickstart_launchctl_service.rs`: kickstarting and stopping a launchd
  unit.

`app/` runs the commands, removes files, spawns tasks, parses `diskutil`'s
plist output and holds the serialisable forms of the types.
