use cargo_wapm::assemble::{bindings_copies, pack_plan};
use cargo_wapm::compile::{
    build_invocation, expected_binary_path, interpret_build_outcome, locate_artifact, target_triple,
    RunOutcome,
};
use cargo_wapm::error::PublishError;
use cargo_wapm::fspath::FsPath;
use cargo_wapm::manifest::{generate_manifest, wasm_binary_name};
use cargo_wapm::model::{
    BindingsModel, BuildAbi, FsEntry, MetadataEntry, Target, TargetKind, Unit, WapmConfig,
    Workspace,
};
use cargo_wapm::publish::Publish;
use cargo_wapm::publisher::{interpret_publish_outcome, publish_args};
use cargo_wapm::resolve::{determine_crates_to_publish, determine_target};

fn path(xs: &[&str]) -> FsPath {
    FsPath {
        segments: xs.iter().map(|x| x.to_string()).collect(),
    }
}

fn segs(p: &FsPath) -> Vec<String> {
    p.segments.clone()
}

fn target(name: &str, kind: TargetKind) -> Target {
    Target {
        name: name.to_string(),
        kind,
    }
}

fn config(namespace: &str, package: Option<&str>) -> WapmConfig {
    WapmConfig {
        namespace: namespace.to_string(),
        package: package.map(|p| p.to_string()),
        wasmer_extra_flags: None,
        abi: BuildAbi::NoAbi,
        fs: Vec::new(),
        bindings: None,
    }
}

fn unit(name: &str, manifest_path: FsPath, metadata: MetadataEntry, targets: Vec<Target>) -> Unit {
    Unit {
        name: name.to_string(),
        version: "1.2.3".to_string(),
        description: Some("a test unit".to_string()),
        license: Some("MIT".to_string()),
        license_file: None,
        readme: None,
        repository: None,
        homepage: None,
        manifest_path,
        metadata,
        targets,
    }
}

fn lib_unit(name: &str) -> Unit {
    unit(
        name,
        path(&["/", "ws", name, "Cargo.toml"]),
        MetadataEntry::Wapm(config("demo", None)),
        vec![target(name, TargetKind::Library)],
    )
}

fn publish_cmd(workspace: bool, dry_run: bool) -> Publish {
    Publish {
        dry_run,
        manifest_path: None,
        workspace,
        features: None,
        all_features: false,
        no_default_features: false,
        exclude: Vec::new(),
        debug: false,
    }
}

#[test]
fn no_qualifying_target_is_rejected_naming_the_unit() {
    let u = unit(
        "quiet",
        path(&["/", "ws", "quiet", "Cargo.toml"]),
        MetadataEntry::Wapm(config("demo", None)),
        vec![target("quiet", TargetKind::Other)],
    );
    match determine_target(&u) {
        Err(PublishError::NoPublishableTarget { unit }) => assert_eq!(unit, "quiet"),
        _ => panic!("expected NoPublishableTarget"),
    }
}

#[test]
fn zero_targets_at_all_is_rejected() {
    let u = unit(
        "empty",
        path(&["/", "ws", "empty", "Cargo.toml"]),
        MetadataEntry::Wapm(config("demo", None)),
        vec![],
    );
    assert!(matches!(
        determine_target(&u),
        Err(PublishError::NoPublishableTarget { .. })
    ));
}

#[test]
fn ambiguous_targets_list_every_candidate() {
    let u = unit(
        "both",
        path(&["/", "ws", "both", "Cargo.toml"]),
        MetadataEntry::Wapm(config("demo", None)),
        vec![
            target("both-lib", TargetKind::Library),
            target("ignored", TargetKind::Other),
            target("both-bin", TargetKind::Executable),
        ],
    );
    match determine_target(&u) {
        Err(PublishError::AmbiguousTarget { candidates }) => {
            assert_eq!(candidates.len(), 2);
            assert_eq!(candidates[0].name, "both-lib");
            assert!(matches!(candidates[0].kind, TargetKind::Library));
            assert_eq!(candidates[1].name, "both-bin");
            assert!(matches!(candidates[1].kind, TargetKind::Executable));
        }
        _ => panic!("expected AmbiguousTarget"),
    }
}

#[test]
fn single_qualifying_target_is_selected() {
    let u = unit(
        "one",
        path(&["/", "ws", "one", "Cargo.toml"]),
        MetadataEntry::Wapm(config("demo", None)),
        vec![
            target("helper", TargetKind::Other),
            target("one", TargetKind::Library),
        ],
    );
    let t = determine_target(&u).unwrap();
    assert_eq!(t.name, "one");
    assert!(matches!(t.kind, TargetKind::Library));
}

#[test]
fn empty_description_rejected_differently_from_missing() {
    let mut u = lib_unit("desc");
    u.description = Some(String::new());
    let empty_err = match generate_manifest(&u, &target("desc", TargetKind::Library)) {
        Err(e @ PublishError::MissingDescription {
            present_but_empty: true,
            ..
        }) => e,
        other => panic!("expected empty-description error, got {:?}", other.is_ok()),
    };
    u.description = None;
    let missing_err = match generate_manifest(&u, &target("desc", TargetKind::Library)) {
        Err(e @ PublishError::MissingDescription {
            present_but_empty: false,
            ..
        }) => e,
        other => panic!("expected missing-description error, got {:?}", other.is_ok()),
    };
    assert_ne!(empty_err.phrase(), missing_err.phrase());
}

#[test]
fn missing_metadata_table_rejected_at_synthesis() {
    let mut u = lib_unit("bare");
    u.metadata = MetadataEntry::Absent;
    match generate_manifest(&u, &target("bare", TargetKind::Library)) {
        Err(PublishError::InvalidMetadata { unit }) => assert_eq!(unit, "bare"),
        _ => panic!("expected InvalidMetadata"),
    }
    u.metadata = MetadataEntry::Malformed;
    assert!(matches!(
        generate_manifest(&u, &target("bare", TargetKind::Library)),
        Err(PublishError::InvalidMetadata { .. })
    ));
}

#[test]
fn package_name_uses_unit_name_without_override() {
    let u = unit(
        "plain",
        path(&["/", "ws", "plain", "Cargo.toml"]),
        MetadataEntry::Wapm(config("demo", None)),
        vec![target("plain", TargetKind::Library)],
    );
    let m = generate_manifest(&u, &u.targets[0]).unwrap();
    assert_eq!(m.package.name, "demo/plain");
}

#[test]
fn package_name_uses_override_when_present() {
    let u = unit(
        "plain",
        path(&["/", "ws", "plain", "Cargo.toml"]),
        MetadataEntry::Wapm(config("demo", Some("renamed"))),
        vec![target("plain", TargetKind::Library)],
    );
    let m = generate_manifest(&u, &u.targets[0]).unwrap();
    assert_eq!(m.package.name, "demo/renamed");
}

#[test]
fn manifest_holds_unit_fields_and_fixed_flags() {
    let mut u = lib_unit("full");
    u.license_file = Some(path(&["LICENSE"]));
    u.readme = Some(path(&["README.md"]));
    u.repository = Some("https://example.com/full.git".to_string());
    u.homepage = Some("https://example.com".to_string());
    let m = generate_manifest(&u, &u.targets[0]).unwrap();
    assert_eq!(m.package.version, "1.2.3");
    assert_eq!(m.package.description, "a test unit");
    assert_eq!(m.package.license.as_deref(), Some("MIT"));
    assert_eq!(
        m.package.license_file.as_ref().unwrap().segments,
        vec!["LICENSE".to_string()]
    );
    assert_eq!(
        m.package.readme.as_ref().unwrap().segments,
        vec!["README.md".to_string()]
    );
    assert!(!m.package.disable_command_rename);
    assert!(!m.package.rename_commands_to_raw_command_name);
    assert!(m.base_directory_path.segments.is_empty());
    assert_eq!(m.module.len(), 1);
    assert_eq!(m.module[0].name, "full");
    assert_eq!(m.module[0].source, "full.wasm");
    assert!(m.command.is_none());
}

#[test]
fn executable_target_gets_exactly_one_command() {
    let u = unit(
        "tool",
        path(&["/", "ws", "tool", "Cargo.toml"]),
        MetadataEntry::Wapm(config("demo", None)),
        vec![target("tool", TargetKind::Executable)],
    );
    let m = generate_manifest(&u, &u.targets[0]).unwrap();
    let cmds = m.command.as_ref().unwrap();
    assert_eq!(cmds.len(), 1);
    assert_eq!(cmds[0].name, "tool");
    assert_eq!(cmds[0].module, "tool");
    assert_eq!(cmds[0].package.as_deref(), Some("demo/tool"));
    assert!(cmds[0].main_args.is_none());
}

#[test]
fn fs_table_is_copied_verbatim() {
    let mut cfg = config("demo", None);
    cfg.fs = vec![FsEntry {
        guest: "data".to_string(),
        host: path(&["assets", "data"]),
    }];
    let u = unit(
        "fsy",
        path(&["/", "ws", "fsy", "Cargo.toml"]),
        MetadataEntry::Wapm(cfg),
        vec![target("fsy", TargetKind::Library)],
    );
    let m = generate_manifest(&u, &u.targets[0]).unwrap();
    assert_eq!(m.fs.len(), 1);
    assert_eq!(m.fs[0].guest, "data");
    assert_eq!(m.fs[0].host.segments, vec!["assets", "data"]);
}

#[test]
fn bindings_are_carried_into_the_module() {
    let mut cfg = config("demo", None);
    cfg.bindings = Some(BindingsModel::Wit {
        wit_bindgen: "0.1.0".to_string(),
        wit_exports: path(&["bindings", "x.wit"]),
    });
    let u = unit(
        "bound",
        path(&["/", "ws", "bound", "Cargo.toml"]),
        MetadataEntry::Wapm(cfg),
        vec![target("bound", TargetKind::Library)],
    );
    let m = generate_manifest(&u, &u.targets[0]).unwrap();
    match m.module[0].bindings.as_ref().unwrap() {
        BindingsModel::Wit {
            wit_bindgen,
            wit_exports,
        } => {
            assert_eq!(wit_bindgen, "0.1.0");
            assert_eq!(wit_exports.segments, vec!["bindings", "x.wit"]);
        }
        _ => panic!("expected wit bindings"),
    }
}

#[test]
fn library_dashes_become_underscores_executables_keep_them() {
    assert_eq!(
        wasm_binary_name(&target("my-neat-lib", TargetKind::Library)),
        "my_neat_lib"
    );
    assert_eq!(
        wasm_binary_name(&target("my-neat-bin", TargetKind::Executable)),
        "my-neat-bin"
    );
    assert_eq!(
        wasm_binary_name(&target("plain", TargetKind::Library)),
        "plain"
    );
}

#[test]
fn expected_binary_path_follows_the_naming_rule() {
    let out = expected_binary_path(
        &path(&["/", "ws", "target"]),
        BuildAbi::NoAbi,
        false,
        &target("my-lib", TargetKind::Library),
    );
    assert_eq!(
        out.segments,
        vec!["/", "ws", "target", "wasm32-unknown-unknown", "release", "my_lib.wasm"]
    );
    let dbg = expected_binary_path(
        &path(&["/", "ws", "target"]),
        BuildAbi::Wasi,
        true,
        &target("my-bin", TargetKind::Executable),
    );
    assert_eq!(
        dbg.segments,
        vec!["/", "ws", "target", "wasm32-wasi", "debug", "my-bin.wasm"]
    );
}

#[test]
fn abi_selects_the_target_triple() {
    assert_eq!(target_triple(BuildAbi::NoAbi), "wasm32-unknown-unknown");
    assert_eq!(target_triple(BuildAbi::Wasm4), "wasm32-unknown-unknown");
    assert_eq!(target_triple(BuildAbi::Wasi), "wasm32-wasi");
    assert_eq!(
        target_triple(BuildAbi::Emscripten),
        "wasm32-unknown-emscripten"
    );
}

#[test]
fn build_invocation_is_release_unless_debug() {
    let u = lib_unit("opt");
    let b = build_invocation(&u, BuildAbi::Wasi, false);
    assert!(b.release);
    assert_eq!(b.target_triple, "wasm32-wasi");
    assert_eq!(segs(&b.manifest_path), segs(&u.manifest_path));
    let b = build_invocation(&u, BuildAbi::Wasi, true);
    assert!(!b.release);
}

#[test]
fn build_outcomes_are_judged_by_exit_code() {
    assert!(matches!(
        interpret_build_outcome(RunOutcome::NotStarted),
        Err(PublishError::ToolNotFound { .. })
    ));
    assert!(interpret_build_outcome(RunOutcome::Completed { code: Some(0) }).is_ok());
    assert!(matches!(
        interpret_build_outcome(RunOutcome::Completed { code: Some(101) }),
        Err(PublishError::BuildFailed { code: Some(101) })
    ));
    assert!(matches!(
        interpret_build_outcome(RunOutcome::Completed { code: None }),
        Err(PublishError::BuildFailed { code: None })
    ));
}

#[test]
fn missing_artifact_is_an_error_not_a_skip() {
    let expected = path(&["/", "t", "release", "x.wasm"]);
    assert_eq!(
        segs(&locate_artifact(&expected, true).unwrap()),
        segs(&expected)
    );
    match locate_artifact(&expected, false) {
        Err(PublishError::ArtifactNotFound { path: p }) => assert_eq!(segs(&p), segs(&expected)),
        _ => panic!("expected ArtifactNotFound"),
    }
}

#[test]
fn publish_outcomes_are_judged_by_exit_code() {
    assert!(matches!(
        interpret_publish_outcome(RunOutcome::NotStarted),
        Err(PublishError::ToolNotFound { .. })
    ));
    assert!(interpret_publish_outcome(RunOutcome::Completed { code: Some(0) }).is_ok());
    assert!(matches!(
        interpret_publish_outcome(RunOutcome::Completed { code: Some(2) }),
        Err(PublishError::PublishFailed { code: Some(2) })
    ));
}

#[test]
fn nested_units_deepest_match_wins() {
    let a = unit(
        "a",
        path(&["/", "ws", "a", "Cargo.toml"]),
        MetadataEntry::Wapm(config("demo", None)),
        vec![target("a", TargetKind::Library)],
    );
    let b = unit(
        "b",
        path(&["/", "ws", "a", "b", "Cargo.toml"]),
        MetadataEntry::Wapm(config("demo", None)),
        vec![target("b", TargetKind::Library)],
    );
    let ws = Workspace {
        members: vec![a, b],
        root: Some(0),
        target_directory: path(&["/", "ws", "target"]),
    };
    let current = path(&["/", "ws", "a", "b", "src"]);
    let sel = determine_crates_to_publish(&ws, false, &current, &Vec::new()).unwrap();
    assert_eq!(sel, vec![1]);
}

#[test]
fn current_dir_outside_every_member_falls_back_to_root() {
    let a = lib_unit("a");
    let ws = Workspace {
        members: vec![a],
        root: Some(0),
        target_directory: path(&["/", "ws", "target"]),
    };
    let current = path(&["/", "elsewhere"]);
    let sel = determine_crates_to_publish(&ws, false, &current, &Vec::new()).unwrap();
    assert_eq!(sel, vec![0]);
}

#[test]
fn no_candidate_and_no_root_is_a_resolution_error() {
    let a = lib_unit("a");
    let ws = Workspace {
        members: vec![a],
        root: None,
        target_directory: path(&["/", "ws", "target"]),
    };
    let current = path(&["/", "elsewhere"]);
    assert!(matches!(
        determine_crates_to_publish(&ws, false, &current, &Vec::new()),
        Err(PublishError::Resolution)
    ));
}

#[test]
fn workspace_mode_skips_members_without_the_metadata_table() {
    let mut silent = lib_unit("silent");
    silent.metadata = MetadataEntry::Absent;
    let mut broken = lib_unit("broken");
    broken.metadata = MetadataEntry::Malformed;
    let ws = Workspace {
        members: vec![lib_unit("a"), silent, broken, lib_unit("d")],
        root: None,
        target_directory: path(&["/", "ws", "target"]),
    };
    let sel =
        determine_crates_to_publish(&ws, true, &path(&["/", "ws"]), &Vec::new()).unwrap();
    // A malformed table still opts in; only an absent table opts out.
    assert_eq!(sel, vec![0, 2, 3]);
}

#[test]
fn workspace_mode_honors_the_exclude_list() {
    let ws = Workspace {
        members: vec![lib_unit("keep"), lib_unit("drop")],
        root: None,
        target_directory: path(&["/", "ws", "target"]),
    };
    let exclude = vec!["drop".to_string()];
    let sel = determine_crates_to_publish(&ws, true, &path(&["/", "ws"]), &exclude).unwrap();
    assert_eq!(sel, vec![0]);
}

#[test]
fn pack_plan_places_manifest_binary_license_and_readme() {
    let mut u = lib_unit("pkg");
    u.license_file = Some(path(&["legal", "LICENSE"]));
    u.readme = Some(path(&["README.md"]));
    let dest = path(&["/", "ws", "target", "wapm", "pkg"]);
    let wasm = path(&["/", "ws", "target", "wasm32-unknown-unknown", "release", "pkg.wasm"]);
    let plan = pack_plan(&dest, &wasm, &u);
    assert_eq!(
        segs(&plan.manifest_dest),
        vec!["/", "ws", "target", "wapm", "pkg", "wapm.toml"]
    );
    assert_eq!(plan.copies.len(), 3);
    assert_eq!(segs(&plan.copies[0].from), segs(&wasm));
    assert_eq!(
        segs(&plan.copies[0].to),
        vec!["/", "ws", "target", "wapm", "pkg", "pkg.wasm"]
    );
    // The license file is resolved relative to the manifest directory and
    // lands under its base file name.
    assert_eq!(
        segs(&plan.copies[1].from),
        vec!["/", "ws", "pkg", "legal", "LICENSE"]
    );
    assert_eq!(
        segs(&plan.copies[1].to),
        vec!["/", "ws", "target", "wapm", "pkg", "LICENSE"]
    );
    assert_eq!(
        segs(&plan.copies[2].from),
        vec!["/", "ws", "pkg", "README.md"]
    );
    assert_eq!(
        segs(&plan.copies[2].to),
        vec!["/", "ws", "target", "wapm", "pkg", "README.md"]
    );
}

#[test]
fn bindings_file_keeps_its_unit_relative_location() {
    let dest = path(&["/", "out", "pkg"]);
    let base = path(&["/", "ws", "unit"]);
    let referenced = vec![path(&["/", "ws", "unit", "bindings", "x.wit"])];
    let copies = bindings_copies(&dest, &base, &referenced).unwrap();
    assert_eq!(copies.len(), 1);
    assert_eq!(
        segs(&copies[0].from),
        vec!["/", "ws", "unit", "bindings", "x.wit"]
    );
    assert_eq!(segs(&copies[0].to), vec!["/", "out", "pkg", "bindings", "x.wit"]);
}

#[test]
fn bindings_file_outside_the_unit_is_rejected() {
    let dest = path(&["/", "out", "pkg"]);
    let base = path(&["/", "ws", "unit"]);
    let referenced = vec![path(&["/", "ws", "unit", "..", "outside.wit"])];
    match bindings_copies(&dest, &base, &referenced) {
        Err(PublishError::PathOutsideUnit { path: p, unit_dir }) => {
            assert_eq!(segs(&p), vec!["/", "ws", "unit", "..", "outside.wit"]);
            assert_eq!(segs(&unit_dir), segs(&base));
        }
        _ => panic!("expected PathOutsideUnit"),
    }
}

#[test]
fn dry_run_changes_only_the_publisher_arguments() {
    let ws = Workspace {
        members: vec![lib_unit("solo")],
        root: Some(0),
        target_directory: path(&["/", "ws", "target"]),
    };
    let current = path(&["/", "ws", "solo", "src"]);
    let wet = publish_cmd(false, false)
        .execute(&ws, &current)
        .unwrap()
        .remove(0);
    let dry = publish_cmd(false, true)
        .execute(&ws, &current)
        .unwrap()
        .remove(0);
    assert_eq!(segs(&wet.dest), segs(&dry.dest));
    assert_eq!(
        segs(&wet.build.manifest_path),
        segs(&dry.build.manifest_path)
    );
    assert_eq!(wet.build.target_triple, dry.build.target_triple);
    assert_eq!(wet.build.release, dry.build.release);
    assert_eq!(segs(&wet.expected_binary), segs(&dry.expected_binary));
    assert_eq!(segs(&wet.pack.manifest_dest), segs(&dry.pack.manifest_dest));
    assert_eq!(wet.pack.copies.len(), dry.pack.copies.len());
    assert_eq!(wet.publish_args, vec!["publish".to_string()]);
    assert_eq!(
        dry.publish_args,
        vec!["publish".to_string(), "--dry-run".to_string()]
    );
}

#[test]
fn publish_args_carry_the_dry_run_flag_exactly_when_requested() {
    assert_eq!(publish_args(false), vec!["publish".to_string()]);
    assert_eq!(
        publish_args(true),
        vec!["publish".to_string(), "--dry-run".to_string()]
    );
}

#[test]
fn execute_plans_a_whole_workspace_in_order() {
    let mut skipped = lib_unit("skipped");
    skipped.metadata = MetadataEntry::Absent;
    let ws = Workspace {
        members: vec![lib_unit("a"), skipped, lib_unit("c")],
        root: None,
        target_directory: path(&["/", "ws", "target"]),
    };
    let plans = publish_cmd(true, false)
        .execute(&ws, &path(&["/", "ws"]))
        .unwrap();
    assert_eq!(plans.len(), 2);
    assert_eq!(plans[0].unit_index, 0);
    assert_eq!(plans[1].unit_index, 2);
    assert_eq!(
        segs(&plans[0].dest),
        vec!["/", "ws", "target", "wapm", "a"]
    );
    assert_eq!(plans[0].manifest.package.name, "demo/a");
    assert_eq!(
        segs(&plans[0].expected_binary),
        vec!["/", "ws", "target", "wasm32-unknown-unknown", "release", "a.wasm"]
    );
}

#[test]
fn execute_fails_fast_on_the_first_bad_unit() {
    let mut bad = lib_unit("bad");
    bad.description = None;
    let ws = Workspace {
        members: vec![lib_unit("a"), bad, lib_unit("c")],
        root: None,
        target_directory: path(&["/", "ws", "target"]),
    };
    match publish_cmd(true, false).execute(&ws, &path(&["/", "ws"])) {
        Err(PublishError::MissingDescription {
            unit,
            present_but_empty,
        }) => {
            assert_eq!(unit, "bad");
            assert!(!present_but_empty);
        }
        _ => panic!("expected MissingDescription"),
    }
}

#[test]
fn paths_normalize_dot_and_dot_dot() {
    let p = path(&["/", "ws", "unit", ".", "sub", "..", "file.wit"]);
    assert_eq!(segs(&p.normalize()), vec!["/", "ws", "unit", "file.wit"]);
}

#[test]
fn strip_prefix_returns_the_remainder_only_under_the_base() {
    let base = path(&["/", "ws"]);
    let inside = path(&["/", "ws", "a", "b"]);
    let outside = path(&["/", "other"]);
    assert_eq!(
        segs(&inside.strip_prefix(&base).unwrap()),
        vec!["a", "b"]
    );
    assert!(outside.strip_prefix(&base).is_none());
}
