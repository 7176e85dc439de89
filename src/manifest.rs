//! The parsed manifest of a package, as the projection reads it.

use vstd::prelude::*;

verus! {

/// A semantic version, `major.minor.patch`.
#[derive(Clone, Copy, Debug, PartialEq, Eq, Structural, Hash)]
pub struct Version {
    pub major: u64,
    pub minor: u64,
    pub patch: u64,
}

impl Version {
    pub fn new(major: u64, minor: u64, patch: u64) -> (r: Version)
        ensures
            r == (Version { major, minor, patch }),
    {
        Version { major, minor, patch }
    }
}

/// The binary interface a module is compiled against.
#[derive(Clone, Copy, Debug, PartialEq, Eq, Structural, Hash)]
pub enum Abi {
    Unspecified,
    Emscripten,
    Wasi,
}

/// The `[package]` section: the identity of the package.
#[derive(Clone, Debug)]
pub struct Package {
    pub name: String,
    pub version: Version,
}

/// One `[[module]]` declaration.
#[derive(Clone, Debug)]
pub struct Module {
    pub name: String,
    /// Path of the compiled module, relative to the manifest's directory.
    pub source: String,
    pub abi: Abi,
}

/// One `[[command]]` declaration: a command name and the module it runs.
#[derive(Clone, Debug)]
pub struct Command {
    pub name: String,
    pub module: String,
    pub main_args: Option<String>,
}

/// A manifest, already parsed and validated.
#[derive(Clone, Debug)]
pub struct Manifest {
    pub package: Package,
    pub module: Option<Vec<Module>>,
    pub command: Option<Vec<Command>>,
    /// The directory that holds the manifest; module sources are resolved
    /// against it.
    pub base_directory_path: String,
}

/// The declared modules, none when the section is absent.
pub open spec fn declared_modules(manifest: Manifest) -> Seq<Module> {
    match manifest.module {
        Some(modules) => modules@,
        None => Seq::empty(),
    }
}

/// The declared commands, none when the section is absent.
pub open spec fn declared_commands(manifest: Manifest) -> Seq<Command> {
    match manifest.command {
        Some(commands) => commands@,
        None => Seq::empty(),
    }
}

/// Whether some module of `modules` has the name `name`.
pub open spec fn declares_module(modules: Seq<Module>, name: Seq<char>) -> bool {
    exists|i: int| 0 <= i < modules.len() && (#[trigger] modules[i]).name@ == name
}

} // verus!
