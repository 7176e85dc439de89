use wapm_cli::local_package::{Error, LocalPackage};
use wapm_cli::lock::{CommandError, LockfileCommand, LockfileModule, PackageKey};
use wapm_cli::lockfile_packages::LockfilePackages;
use wapm_cli::manifest::{Abi, Command, Manifest, Module, Package, Version};

fn manifest(
    name: &str,
    version: Version,
    modules: Option<Vec<Module>>,
    commands: Option<Vec<Command>>,
) -> Manifest {
    Manifest {
        package: Package { name: name.to_string(), version },
        module: modules,
        command: commands,
        base_directory_path: "/home/user/pkg".to_string(),
    }
}

fn module(name: &str, source: &str) -> Module {
    Module { name: name.to_string(), source: source.to_string(), abi: Abi::Wasi }
}

fn command(name: &str, module: &str) -> Command {
    Command { name: name.to_string(), module: module.to_string(), main_args: None }
}

#[test]
fn empty_manifest_projects_to_empty_package() {
    let m = manifest("left-pad", Version::new(1, 0, 0), Some(vec![]), Some(vec![]));
    let local = LocalPackage::new_from_local_package_in_manifest(&m).unwrap();
    assert_eq!(local.key.name, "left-pad");
    assert_eq!(local.key.version, Version::new(1, 0, 0));
    assert!(local.data.modules.is_empty());
    assert!(local.data.commands.is_empty());
}

#[test]
fn absent_sections_count_as_empty() {
    let m = manifest("left-pad", Version::new(1, 0, 0), None, None);
    let local = LocalPackage::new_from_local_package_in_manifest(&m).unwrap();
    assert!(local.data.modules.is_empty());
    assert!(local.data.commands.is_empty());
}

#[test]
fn left_pad_converts_to_one_entry() {
    let m = manifest("left-pad", Version::new(1, 0, 0), Some(vec![]), Some(vec![]));
    let local = LocalPackage::new_from_local_package_in_manifest(&m).unwrap();
    let packages = LockfilePackages::from(local);
    assert_eq!(packages.len(), 1);
    let key = PackageKey::new_registry_package("left-pad", Version::new(1, 0, 0));
    let data = packages.get(&key).unwrap();
    assert!(data.modules.is_empty());
    assert!(data.commands.is_empty());
    let other = PackageKey::new_registry_package("left-pad", Version::new(1, 0, 1));
    assert!(packages.get(&other).is_none());
}

#[test]
fn command_with_unknown_module_fails_projection() {
    let m = manifest(
        "left-pad",
        Version::new(1, 0, 0),
        None,
        Some(vec![command("pad", "nonexistent")]),
    );
    match LocalPackage::new_from_local_package_in_manifest(&m) {
        Err(Error::CouldNotExtractCommandsFromManifest(
            CommandError::ModuleForCommandDoesNotExist { command, module },
        )) => {
            assert_eq!(command, "pad");
            assert_eq!(module, "nonexistent");
        }
        Ok(_) => panic!("a command without its module must not project"),
    }
}

#[test]
fn first_unresolved_command_is_reported() {
    let m = manifest(
        "tools",
        Version::new(0, 3, 2),
        Some(vec![module("main", "main.wasm")]),
        Some(vec![command("ok", "main"), command("bad", "gone"), command("worse", "lost")]),
    );
    match LocalPackage::new_from_local_package_in_manifest(&m) {
        Err(Error::CouldNotExtractCommandsFromManifest(
            CommandError::ModuleForCommandDoesNotExist { command, module },
        )) => {
            assert_eq!(command, "bad");
            assert_eq!(module, "gone");
        }
        Ok(_) => panic!("one unresolved command fails the whole projection"),
    }
}

#[test]
fn projection_records_belong_to_key() {
    let m = manifest(
        "tools",
        Version::new(0, 3, 2),
        Some(vec![module("main", "main.wasm"), module("helper", "lib/helper.wasm")]),
        Some(vec![command("run", "main"), command("help", "helper")]),
    );
    let local = LocalPackage::new_from_local_package_in_manifest(&m).unwrap();
    assert_eq!(local.data.modules.len(), 2);
    assert_eq!(local.data.commands.len(), 2);
    for lm in local.data.modules.iter() {
        assert_eq!(lm.package_name, local.key.name);
        assert_eq!(lm.package_version, local.key.version);
    }
    for lc in local.data.commands.iter() {
        assert_eq!(lc.package_name, local.key.name);
        assert_eq!(lc.package_version, local.key.version);
        assert!(lc.is_top_level_dependency);
    }
    assert_eq!(local.data.modules[0].name, "main");
    assert_eq!(local.data.modules[1].name, "helper");
    assert_eq!(local.data.commands[0].name, "run");
    assert_eq!(local.data.commands[1].module, "helper");
}

#[test]
fn module_source_is_resolved_against_base_directory() {
    let m = manifest(
        "tools",
        Version::new(0, 3, 2),
        Some(vec![module("helper", "lib/helper.wasm")]),
        None,
    );
    let local = LocalPackage::new_from_local_package_in_manifest(&m).unwrap();
    let lm = &local.data.modules[0];
    assert_eq!(lm.source, "/home/user/pkg/lib/helper.wasm");
    assert_eq!(lm.resolved, lm.source);
    assert_eq!(lm.abi, Abi::Wasi);
}

#[test]
fn from_local_module_copies_declaration() {
    let lm = LockfileModule::from_local_module(
        "/srv",
        "tools",
        Version::new(2, 0, 0),
        &Module { name: "m".to_string(), source: "m.wasm".to_string(), abi: Abi::Emscripten },
    );
    assert_eq!(lm.name, "m");
    assert_eq!(lm.package_name, "tools");
    assert_eq!(lm.package_version, Version::new(2, 0, 0));
    assert_eq!(lm.source, "/srv/m.wasm");
    assert_eq!(lm.abi, Abi::Emscripten);
}

#[test]
fn from_command_copies_declaration() {
    let c = Command {
        name: "run".to_string(),
        module: "main".to_string(),
        main_args: Some("--verbose".to_string()),
    };
    let modules = vec![module("main", "main.wasm")];
    let lc = LockfileCommand::from_command("tools", Version::new(1, 2, 3), &c, &modules).unwrap();
    assert_eq!(lc.name, "run");
    assert_eq!(lc.package_name, "tools");
    assert_eq!(lc.package_version, Version::new(1, 2, 3));
    assert_eq!(lc.module, "main");
    assert_eq!(lc.main_args, Some("--verbose".to_string()));
    assert!(lc.is_top_level_dependency);
}

#[test]
fn from_command_without_module_fails() {
    let c = command("run", "main");
    let r = LockfileCommand::from_command("tools", Version::new(1, 2, 3), &c, &vec![]);
    assert!(matches!(
        r,
        Err(CommandError::ModuleForCommandDoesNotExist { ref command, ref module })
            if command == "run" && module == "main"
    ));
}

#[test]
fn key_depends_only_on_name_and_version() {
    let a = manifest("left-pad", Version::new(1, 0, 0), None, None);
    let b = manifest(
        "left-pad",
        Version::new(1, 0, 0),
        Some(vec![module("main", "main.wasm")]),
        Some(vec![command("pad", "main")]),
    );
    let ka = LocalPackage::new_from_local_package_in_manifest(&a).unwrap().key;
    let kb = LocalPackage::new_from_local_package_in_manifest(&b).unwrap().key;
    assert!(ka == kb);
    let c = manifest("left-pad", Version::new(1, 1, 0), None, None);
    let kc = LocalPackage::new_from_local_package_in_manifest(&c).unwrap().key;
    assert!(ka != kc);
}

#[test]
fn conversion_keeps_modules_and_commands() {
    let m = manifest(
        "tools",
        Version::new(0, 3, 2),
        Some(vec![module("main", "main.wasm")]),
        Some(vec![command("run", "main"), command("again", "main")]),
    );
    let local = LocalPackage::new_from_local_package_in_manifest(&m).unwrap();
    let packages = LockfilePackages::from_local_package(local);
    assert_eq!(packages.len(), 1);
    let key = PackageKey::new_registry_package("tools", Version::new(0, 3, 2));
    let data = packages.get(&key).unwrap();
    assert_eq!(data.modules.len(), 1);
    assert_eq!(data.commands.len(), 2);
    assert_eq!(data.commands[1].name, "again");
}
