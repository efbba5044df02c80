//! The planning and bookkeeping logic of a Nix installer: where the Nix
//! tarball comes from, and what a handful of installer actions plan, describe
//! and record as they execute and revert.

pub mod action;
pub mod configure_init_service;
pub mod configure_shell_profile;
pub mod configure_upstream_init_service;
pub mod create_apfs_volume;
pub mod distribution;
pub mod kickstart_launchctl_service;
