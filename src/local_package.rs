//! Projecting the package that a manifest describes into a lockfile entry.

use crate::lock::{CommandError, LockfileCommand, LockfileModule, LockfilePackage, PackageKey};
use crate::manifest::{declared_commands, declared_modules, declares_module, Command, Manifest, Module};
use vstd::prelude::*;
use vstd::std_specs::cmp::PartialEqSpec;

verus! {

/// Why a manifest could not be projected.
#[derive(Clone, Debug)]
pub enum Error {
    /// A declared command could not be resolved; holds the cause.
    CouldNotExtractCommandsFromManifest(CommandError),
}

/// The lockfile entry of the package a manifest describes: its key and its
/// modules and commands.
#[derive(Clone, Debug)]
pub struct LocalPackage {
    pub key: PackageKey,
    pub data: LockfilePackage,
}

/// `command` runs a module that `manifest` declares.
pub open spec fn command_resolves(manifest: Manifest, command: Command) -> bool {
    declares_module(declared_modules(manifest), command.module@)
}

/// Every declared command of `manifest` resolves.
pub open spec fn all_commands_resolve(manifest: Manifest) -> bool {
    forall|i: int|
        0 <= i < declared_commands(manifest).len() ==> command_resolves(
            manifest,
            #[trigger] declared_commands(manifest)[i],
        )
}

/// The command at `i` is the first declared command that does not resolve.
pub open spec fn is_first_unresolved_command(manifest: Manifest, i: int) -> bool {
    &&& 0 <= i < declared_commands(manifest).len()
    &&& !command_resolves(manifest, declared_commands(manifest)[i])
    &&& forall|j: int|
        0 <= j < i ==> command_resolves(manifest, #[trigger] declared_commands(manifest)[j])
}

/// `e` is the failure that projecting `manifest` reports: the cause from the
/// first declared command that does not resolve.
pub open spec fn is_projection_failure(manifest: Manifest, e: Error) -> bool {
    match e {
        Error::CouldNotExtractCommandsFromManifest(cause) => exists|i: int|
            is_first_unresolved_command(manifest, i) && cause.reports_missing_module(
                #[trigger] declared_commands(manifest)[i],
            ),
    }
}

impl LocalPackage {
    /// This entry is the projection of `manifest`: keyed by its name and
    /// version, with one record per declared module and per declared
    /// command, in declaration order.
    pub open spec fn is_projection_of(&self, manifest: Manifest) -> bool {
        let name = manifest.package.name@;
        let version = manifest.package.version;
        let modules = declared_modules(manifest);
        let commands = declared_commands(manifest);
        &&& self.key@ == (name, version)
        &&& self.data.modules@.len() == modules.len()
        &&& forall|i: int|
            0 <= i < modules.len() ==> (#[trigger] self.data.modules@[i]).is_local_module(
                manifest.base_directory_path@,
                name,
                version,
                modules[i],
            )
        &&& self.data.commands@.len() == commands.len()
        &&& forall|i: int|
            0 <= i < commands.len() ==> (#[trigger] self.data.commands@[i]).is_command(
                name,
                version,
                commands[i],
            )
    }

    /// Every module and command of this entry belongs to the package version
    /// of its key.
    pub open spec fn is_consistent(&self) -> bool {
        &&& forall|i: int|
            0 <= i < self.data.modules@.len() ==> {
                let m = #[trigger] self.data.modules@[i];
                m.package_name@ == self.key.name@ && m.package_version == self.key.version
            }
        &&& forall|i: int|
            0 <= i < self.data.commands@.len() ==> {
                let c = #[trigger] self.data.commands@[i];
                c.package_name@ == self.key.name@ && c.package_version == self.key.version
            }
    }

    /// Projects the package that `manifest` describes. Absent module or
    /// command sections count as empty. Fails, with the cause from the first
    /// declared command that names no declared module, exactly when such a
    /// command exists; nothing is returned but the error then.
    pub fn new_from_local_package_in_manifest(manifest: &Manifest) -> (r: Result<
        LocalPackage,
        Error,
    >)
        ensures
            match r {
                Ok(local) => all_commands_resolve(*manifest) && local.is_projection_of(*manifest)
                    && local.is_consistent(),
                Err(e) => !all_commands_resolve(*manifest) && is_projection_failure(*manifest, e),
            },
    {
        let package_name = manifest.package.name.as_str();
        let package_version = manifest.package.version;
        let base = manifest.base_directory_path.as_str();
        let none_declared: Vec<Module> = Vec::new();
        let declared: &Vec<Module> = match &manifest.module {
            Some(modules) => modules,
            None => &none_declared,
        };
        let ghost declared_view = declared_modules(*manifest);
        assert(declared@ =~= declared_view);

        let mut modules: Vec<LockfileModule> = Vec::new();
        let mut i: usize = 0;
        while i < declared.len()
            invariant
                i <= declared@.len(),
                declared@ == declared_view,
                declared_view == declared_modules(*manifest),
                package_name@ == manifest.package.name@,
                base@ == manifest.base_directory_path@,
                modules@.len() == i,
                forall|j: int|
                    0 <= j < i ==> (#[trigger] modules@[j]).is_local_module(
                        base@,
                        package_name@,
                        package_version,
                        declared@[j],
                    ),
            decreases declared@.len() - i,
        {
            let module = LockfileModule::from_local_module(
                base,
                package_name,
                package_version,
                &declared[i],
            );
            modules.push(module);
            i += 1;
        }

        let none_commands: Vec<Command> = Vec::new();
        let declared_cmds: &Vec<Command> = match &manifest.command {
            Some(commands) => commands,
            None => &none_commands,
        };
        assert(declared_cmds@ =~= declared_commands(*manifest));

        let mut commands: Vec<LockfileCommand> = Vec::new();
        let mut k: usize = 0;
        while k < declared_cmds.len()
            invariant
                k <= declared_cmds@.len(),
                declared_cmds@ == declared_commands(*manifest),
                declared@ == declared_modules(*manifest),
                package_name@ == manifest.package.name@,
                commands@.len() == k,
                forall|j: int|
                    0 <= j < k ==> (#[trigger] commands@[j]).is_command(
                        package_name@,
                        package_version,
                        declared_cmds@[j],
                    ),
                forall|j: int|
                    0 <= j < k ==> command_resolves(*manifest, #[trigger] declared_cmds@[j]),
            decreases declared_cmds@.len() - k,
        {
            match LockfileCommand::from_command(
                package_name,
                package_version,
                &declared_cmds[k],
                declared,
            ) {
                Ok(command) => {
                    commands.push(command);
                },
                Err(cause) => {
                    assert(is_first_unresolved_command(*manifest, k as int));
                    return Err(Error::CouldNotExtractCommandsFromManifest(cause));
                },
            }
            k += 1;
        }

        let key = PackageKey::new_registry_package(package_name, package_version);
        let data = LockfilePackage { modules, commands };
        Ok(LocalPackage { key, data })
    }
}

/// A manifest that declares no modules and no commands projects
/// successfully, to an entry with no modules and no commands.
pub proof fn empty_manifest_projects_to_empty_package(manifest: Manifest, local: LocalPackage)
    requires
        declared_modules(manifest).len() == 0,
        declared_commands(manifest).len() == 0,
    ensures
        all_commands_resolve(manifest),
        local.is_projection_of(manifest) ==> local.data.modules@.len() == 0
            && local.data.commands@.len() == 0,
{
}

/// Every module and command of a projection belongs to the package version
/// named by the projection's key.
pub proof fn projection_is_consistent(manifest: Manifest, local: LocalPackage)
    requires
        local.is_projection_of(manifest),
    ensures
        local.is_consistent(),
{
    assert forall|i: int| 0 <= i < local.data.modules@.len() implies {
        let m = #[trigger] local.data.modules@[i];
        m.package_name@ == local.key.name@ && m.package_version == local.key.version
    } by {
        assert(local.data.modules@[i].is_local_module(
            manifest.base_directory_path@,
            manifest.package.name@,
            manifest.package.version,
            declared_modules(manifest)[i],
        ));
    }
    assert forall|i: int| 0 <= i < local.data.commands@.len() implies {
        let c = #[trigger] local.data.commands@[i];
        c.package_name@ == local.key.name@ && c.package_version == local.key.version
    } by {
        assert(local.data.commands@[i].is_command(
            manifest.package.name@,
            manifest.package.version,
            declared_commands(manifest)[i],
        ));
    }
}

/// One declared command that does not resolve makes the whole projection
/// fail: not every command resolves, and some command at or before it is
/// the first that does not, whose cause the failure reports.
pub proof fn unresolved_command_fails_projection(manifest: Manifest, i: int)
    requires
        0 <= i < declared_commands(manifest).len(),
        !command_resolves(manifest, declared_commands(manifest)[i]),
    ensures
        !all_commands_resolve(manifest),
        exists|j: int| 0 <= j <= i && is_first_unresolved_command(manifest, j),
    decreases i,
{
    let commands = declared_commands(manifest);
    if forall|j: int| 0 <= j < i ==> command_resolves(manifest, #[trigger] commands[j]) {
        assert(is_first_unresolved_command(manifest, i));
    } else {
        let j = choose|j: int| 0 <= j < i && !command_resolves(manifest, #[trigger] commands[j]);
        unresolved_command_fails_projection(manifest, j);
    }
}

/// The key of a projection depends on the manifest's name and version
/// alone: two manifests that agree on those project to equal keys, whatever
/// modules and commands they declare.
pub proof fn projection_key_depends_on_identity_only(
    first: Manifest,
    second: Manifest,
    first_local: LocalPackage,
    second_local: LocalPackage,
)
    requires
        first.package.name@ == second.package.name@,
        first.package.version == second.package.version,
        first_local.is_projection_of(first),
        second_local.is_projection_of(second),
    ensures
        first_local.key@ == second_local.key@,
        first_local.key.eq_spec(&second_local.key),
{
}

} // verus!
