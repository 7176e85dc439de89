//! Lockfile records: the identity of a package version, and the modules and
//! commands that belong to it.

use crate::manifest::{declares_module, Abi, Command, Module, Version};
use vstd::prelude::*;

verus! {

/// The path that `relative` names when read from the directory `base`.
pub uninterp spec fn joined_path(base: Seq<char>, relative: Seq<char>) -> Seq<char>;

/// Relies on std::path::Path::join to resolve a module source against the
/// manifest's directory; the result is read back as text.
#[verifier::external_body]
fn join_path(base: &str, relative: &str) -> (r: String)
    ensures
        r@ == joined_path(base@, relative@),
{
    std::path::Path::new(base).join(relative).to_string_lossy().into_owned()
}

/// The identity of one package version in a lockfile.
#[derive(Clone, Debug, Hash)]
pub struct PackageKey {
    pub name: String,
    pub version: Version,
}

impl View for PackageKey {
    type V = (Seq<char>, Version);

    open spec fn view(&self) -> (Seq<char>, Version) {
        (self.name@, self.version)
    }
}

impl PackageKey {
    /// The key of a package published to the registry.
    pub fn new_registry_package(name: &str, version: Version) -> (r: PackageKey)
        ensures
            r@ == (name@, version),
    {
        PackageKey { name: name.to_owned(), version }
    }
}

impl PartialEq for PackageKey {
    fn eq(&self, other: &PackageKey) -> (r: bool) {
        self.name == other.name && self.version == other.version
    }
}

impl vstd::std_specs::cmp::PartialEqSpecImpl for PackageKey {
    open spec fn obeys_eq_spec() -> bool {
        true
    }

    open spec fn eq_spec(&self, other: &PackageKey) -> bool {
        self@ == other@
    }
}

impl Eq for PackageKey {}

/// A compiled module of one package version.
#[derive(Clone, Debug)]
pub struct LockfileModule {
    pub name: String,
    pub package_name: String,
    pub package_version: Version,
    pub source: String,
    pub resolved: String,
    pub abi: Abi,
}

impl LockfileModule {
    /// This record describes `module`, declared by the package `package_name`
    /// at `package_version` whose manifest lies in `base`.
    pub open spec fn is_local_module(
        &self,
        base: Seq<char>,
        package_name: Seq<char>,
        package_version: Version,
        module: Module,
    ) -> bool {
        &&& self.name@ == module.name@
        &&& self.package_name@ == package_name
        &&& self.package_version == package_version
        &&& self.source@ == joined_path(base, module.source@)
        &&& self.resolved@ == self.source@
        &&& self.abi == module.abi
    }

    pub fn from_local_module(
        base: &str,
        package_name: &str,
        package_version: Version,
        module: &Module,
    ) -> (r: LockfileModule)
        ensures
            r.is_local_module(base@, package_name@, package_version, *module),
    {
        let path = join_path(base, module.source.as_str());
        LockfileModule {
            name: module.name.clone(),
            package_name: package_name.to_owned(),
            package_version,
            source: path.clone(),
            resolved: path,
            abi: module.abi,
        }
    }
}

/// Why a declared command could not be turned into a lockfile command.
#[derive(Clone, Debug)]
pub enum CommandError {
    /// The command runs a module that the manifest does not declare.
    ModuleForCommandDoesNotExist { command: String, module: String },
}

impl CommandError {
    /// This error reports that `command` names a module nobody declared.
    pub open spec fn reports_missing_module(&self, command: Command) -> bool {
        match self {
            CommandError::ModuleForCommandDoesNotExist { command: c, module: m } => {
                c@ == command.name@ && m@ == command.module@
            },
        }
    }
}

/// A command of one package version and the module it runs.
#[derive(Clone, Debug)]
pub struct LockfileCommand {
    pub name: String,
    pub package_name: String,
    pub package_version: Version,
    pub module: String,
    pub is_top_level_dependency: bool,
    pub main_args: Option<String>,
}

impl LockfileCommand {
    /// This record describes `command`, declared by the package
    /// `package_name` at `package_version`.
    pub open spec fn is_command(
        &self,
        package_name: Seq<char>,
        package_version: Version,
        command: Command,
    ) -> bool {
        &&& self.name@ == command.name@
        &&& self.package_name@ == package_name
        &&& self.package_version == package_version
        &&& self.module@ == command.module@
        &&& self.is_top_level_dependency
        &&& self.main_args == command.main_args
    }

    /// Resolves `command` of the package against the modules it declares:
    /// it fails exactly when none of `modules` carries the command's module
    /// name.
    pub fn from_command(
        package_name: &str,
        package_version: Version,
        command: &Command,
        modules: &Vec<Module>,
    ) -> (r: Result<LockfileCommand, CommandError>)
        ensures
            match r {
                Ok(c) => declares_module(modules@, command.module@) && c.is_command(
                    package_name@,
                    package_version,
                    *command,
                ),
                Err(e) => !declares_module(modules@, command.module@)
                    && e.reports_missing_module(*command),
            },
    {
        let mut i: usize = 0;
        while i < modules.len()
            invariant
                i <= modules@.len(),
                forall|j: int| 0 <= j < i ==> (#[trigger] modules@[j]).name@ != command.module@,
            decreases modules@.len() - i,
        {
            if modules[i].name == command.module {
                let main_args = match &command.main_args {
                    Some(args) => Some(args.clone()),
                    None => None,
                };
                return Ok(
                    LockfileCommand {
                        name: command.name.clone(),
                        package_name: package_name.to_owned(),
                        package_version,
                        module: command.module.clone(),
                        is_top_level_dependency: true,
                        main_args,
                    },
                );
            }
            i += 1;
        }
        Err(
            CommandError::ModuleForCommandDoesNotExist {
                command: command.name.clone(),
                module: command.module.clone(),
            },
        )
    }
}

/// The modules and commands of one package version.
#[derive(Clone, Debug)]
pub struct LockfilePackage {
    pub modules: Vec<LockfileModule>,
    pub commands: Vec<LockfileCommand>,
}

} // verus!
