//! The lockfile side of a package manager: projecting the package described
//! by its own manifest into a keyed lockfile entry, and shaping the results of
//! a registry search for display.

pub mod lock;
pub mod local_package;
pub mod lockfile_packages;
pub mod manifest;
pub mod search;
