//! Synthesizing the registry package manifest from a unit's metadata and
//! its selected build target.

use vstd::prelude::*;
use vstd::string::StrSliceExecFns;
use vstd::string::StringExecFns;
use crate::fspath::FsPath;
use crate::error::PublishError;
use crate::model::{
    BindingsModel, BuildAbi, FsEntry, MetadataEntry, Target, Unit, WapmConfig, fs_entries_view,
    lemma_fs_entries_view, lemma_paths_view, opt_bindings_view, opt_path_view, opt_string_view,
    paths_view,
};
use crate::resolve::{is_binary, spec_is_binary};

verus! {

/// Relies on std's `String::push`: it appends exactly the given character
/// to the end of the string.
pub assume_specification[ String::push ](s: &mut String, c: char)
    ensures
        final(s)@ == old(s)@.push(c),
;

/// The compiled-artifact naming rule of the compiler toolchain: every
/// `-` in a library artifact's name becomes `_`.
pub open spec fn dash_to_underscore(s: Seq<char>) -> Seq<char> {
    Seq::new(s.len(), |i: int| if s[i] == '-' { '_' } else { s[i] })
}

/// The binary file stem of a target: executables keep their name
/// verbatim, library artifacts have dashes replaced by underscores.
pub open spec fn binary_name_seq(t: Target) -> Seq<char> {
    if spec_is_binary(t) {
        t.name@
    } else {
        dash_to_underscore(t.name@)
    }
}

/// The published package name: `{namespace}/{name}`.
pub open spec fn package_name_seq(namespace: Seq<char>, name: Seq<char>) -> Seq<char> {
    namespace + "/"@ + name
}

/// The name the package is published under: the metadata override when
/// present, the unit's own name otherwise.
pub open spec fn chosen_name_seq(cfg: WapmConfig, unit: Unit) -> Seq<char> {
    match cfg.package {
        Some(p) => p@,
        None => unit.name@,
    }
}

/// The name of the compiled binary file, normalized as the compiler
/// names it on disk.
pub fn wasm_binary_name(target: &Target) -> (r: String)
    ensures
        r@ == binary_name_seq(*target),
{
    if is_binary(target) {
        target.name.clone()
    } else {
        let n = target.name.as_str().unicode_len();
        let mut out = String::new();
        let mut i: usize = 0;
        proof {
            assert(out@ =~= dash_to_underscore(target.name@).subrange(0, 0));
        }
        while i < n
            invariant
                n == target.name@.len(),
                i <= n,
                out@ == dash_to_underscore(target.name@).subrange(0, i as int),
            decreases n - i,
        {
            let c = target.name.as_str().get_char(i);
            if c == '-' {
                out.push('_');
            } else {
                out.push(c);
            }
            proof {
                assert(out@ =~= dash_to_underscore(target.name@).subrange(0, i + 1 as int));
            }
            i = i + 1;
        }
        proof {
            assert(dash_to_underscore(target.name@).subrange(0, n as int) =~= dash_to_underscore(
                target.name@,
            ));
        }
        out
    }
}

/// The identity section of the synthesized manifest.
pub struct PackageDescriptor {
    pub name: String,
    pub version: String,
    pub description: String,
    pub license: Option<String>,
    pub license_file: Option<FsPath>,
    pub readme: Option<FsPath>,
    pub repository: Option<String>,
    pub homepage: Option<String>,
    pub wasmer_extra_flags: Option<String>,
    pub disable_command_rename: bool,
    pub rename_commands_to_raw_command_name: bool,
}

/// One module of the synthesized manifest: the published binary.
pub struct ModuleDescriptor {
    pub name: String,
    /// The binary's file name, relative to the package directory.
    pub source: String,
    pub abi: BuildAbi,
    pub bindings: Option<BindingsModel>,
}

/// One command of the synthesized manifest, present only for executables.
pub struct CommandDescriptor {
    pub name: String,
    pub module: String,
    pub package: Option<String>,
    pub main_args: Option<String>,
}

/// The synthesized registry manifest. Constructed fresh per unit and
/// never mutated afterwards; the dependency list is always absent and
/// every path inside is relative to the package directory.
pub struct PackageManifest {
    pub package: PackageDescriptor,
    pub module: Vec<ModuleDescriptor>,
    pub command: Option<Vec<CommandDescriptor>>,
    pub fs: Vec<FsEntry>,
    /// Always empty: paths in the manifest are package-root-relative.
    pub base_directory_path: FsPath,
}

/// What the synthesized manifest of a unit and target holds, field by
/// field, when synthesis succeeds.
pub open spec fn manifest_matches(m: PackageManifest, unit: Unit, target: Target) -> bool {
    let cfg = unit.metadata->Wapm_0;
    &&& m.package.name@ == package_name_seq(cfg.namespace@, chosen_name_seq(cfg, unit))
    &&& m.package.version@ == unit.version@
    &&& m.package.description@ == unit.description->Some_0@
    &&& opt_string_view(m.package.license) == opt_string_view(unit.license)
    &&& opt_path_view(m.package.license_file) == opt_path_view(unit.license_file)
    &&& opt_path_view(m.package.readme) == opt_path_view(unit.readme)
    &&& opt_string_view(m.package.repository) == opt_string_view(unit.repository)
    &&& opt_string_view(m.package.homepage) == opt_string_view(unit.homepage)
    &&& opt_string_view(m.package.wasmer_extra_flags) == opt_string_view(cfg.wasmer_extra_flags)
    &&& m.package.disable_command_rename == false
    &&& m.package.rename_commands_to_raw_command_name == false
    &&& m.module@.len() == 1
    &&& m.module@[0].name@ == target.name@
    &&& m.module@[0].source@ == binary_name_seq(target) + ".wasm"@
    &&& m.module@[0].abi == cfg.abi
    &&& opt_bindings_view(m.module@[0].bindings) == opt_bindings_view(cfg.bindings)
    &&& if spec_is_binary(target) {
        &&& m.command matches Some(cs)
        &&& cs@.len() == 1
        &&& cs@[0].name@ == target.name@
        &&& cs@[0].module@ == target.name@
        &&& (cs@[0].package matches Some(p) && p@ == m.package.name@)
        &&& cs@[0].main_args is None
    } else {
        m.command is None
    }
    &&& fs_entries_view(m.fs) == fs_entries_view(cfg.fs)
    &&& m.base_directory_path@.len() == 0
}

fn clone_opt_string(s: &Option<String>) -> (r: Option<String>)
    ensures
        opt_string_view(r) == opt_string_view(*s),
{
    match s {
        Some(t) => Some(t.clone()),
        None => None,
    }
}

fn clone_opt_path(p: &Option<FsPath>) -> (r: Option<FsPath>)
    ensures
        opt_path_view(r) == opt_path_view(*p),
{
    match p {
        Some(q) => Some(q.clone_path()),
        None => None,
    }
}

fn clone_paths(v: &Vec<FsPath>) -> (r: Vec<FsPath>)
    ensures
        paths_view(r) == paths_view(*v),
{
    let mut out: Vec<FsPath> = Vec::new();
    let mut i: usize = 0;
    while i < v.len()
        invariant
            i <= v@.len(),
            out@.len() == i,
            forall|j: int| 0 <= j < i ==> (#[trigger] out@[j])@ == v@[j]@,
        decreases v@.len() - i,
    {
        out.push(v[i].clone_path());
        i = i + 1;
    }
    proof {
        lemma_paths_view(out);
        lemma_paths_view(*v);
        assert(paths_view(out) =~= paths_view(*v));
    }
    out
}

fn clone_bindings(b: &Option<BindingsModel>) -> (r: Option<BindingsModel>)
    ensures
        opt_bindings_view(r) == opt_bindings_view(*b),
{
    match b {
        Some(BindingsModel::Wit { wit_bindgen, wit_exports }) => Some(
            BindingsModel::Wit {
                wit_bindgen: wit_bindgen.clone(),
                wit_exports: wit_exports.clone_path(),
            },
        ),
        Some(BindingsModel::Wai { wai_version, exports, imports }) => Some(
            BindingsModel::Wai {
                wai_version: wai_version.clone(),
                exports: clone_opt_path(exports),
                imports: clone_paths(imports),
            },
        ),
        None => None,
    }
}

fn clone_fs_entries(v: &Vec<FsEntry>) -> (r: Vec<FsEntry>)
    ensures
        fs_entries_view(r) == fs_entries_view(*v),
{
    let mut out: Vec<FsEntry> = Vec::new();
    let mut i: usize = 0;
    while i < v.len()
        invariant
            i <= v@.len(),
            out@.len() == i,
            forall|j: int|
                0 <= j < i ==> (#[trigger] out@[j]).guest@ == v@[j].guest@ && out@[j].host@
                    == v@[j].host@,
        decreases v@.len() - i,
    {
        let e = &v[i];
        out.push(FsEntry { guest: e.guest.clone(), host: e.host.clone_path() });
        i = i + 1;
    }
    proof {
        lemma_fs_entries_view(out);
        lemma_fs_entries_view(*v);
        assert(fs_entries_view(out) =~= fs_entries_view(*v));
    }
    out
}

/// Builds the registry package descriptor for one unit and its selected
/// target.
///
/// The unit's metadata sub-table must be well formed and its description
/// present and non-empty; an absent sub-table and a malformed sub-table
/// are rejected alike, and an empty description is rejected distinctly
/// from an absent one. On success the manifest holds exactly the fields
/// that [`manifest_matches`] states: the package name is
/// `{namespace}/{override-or-unit-name}`, the single module points at the
/// normalized binary file name, and a command is present exactly when
/// the target is an executable.
pub fn generate_manifest(unit: &Unit, target: &Target) -> (r: Result<
    PackageManifest,
    PublishError,
>)
    ensures
        !(unit.metadata is Wapm) ==> (r matches Err(e) && e matches
            PublishError::InvalidMetadata { unit: n } && n@ == unit.name@),
        unit.metadata is Wapm && unit.description is None ==> (r matches Err(e) && e matches
            PublishError::MissingDescription { unit: n, present_but_empty: empty } && n@
            == unit.name@ && empty == false),
        unit.metadata is Wapm && (unit.description matches Some(d) && d@.len() == 0) ==> (r matches
            Err(e) && e matches PublishError::MissingDescription {
                unit: n,
                present_but_empty: empty,
            } && n@ == unit.name@ && empty == true),
        unit.metadata is Wapm && (unit.description matches Some(d) && d@.len() > 0) ==> (r matches
            Ok(m) && manifest_matches(m, *unit, *target)),
{
    let cfg = match &unit.metadata {
        MetadataEntry::Wapm(cfg) => cfg,
        MetadataEntry::Absent | MetadataEntry::Malformed => {
            return Err(PublishError::InvalidMetadata { unit: unit.name.clone() });
        },
    };

    let description = match &unit.description {
        None => {
            return Err(
                PublishError::MissingDescription {
                    unit: unit.name.clone(),
                    present_but_empty: false,
                },
            );
        },
        Some(d) => {
            if d.as_str().is_empty() {
                return Err(
                    PublishError::MissingDescription {
                        unit: unit.name.clone(),
                        present_but_empty: true,
                    },
                );
            }
            d.clone()
        },
    };

    let chosen = match &cfg.package {
        Some(p) => p.clone(),
        None => unit.name.clone(),
    };
    let package_name = cfg.namespace.clone().concat("/").concat(chosen.as_str());

    let source = wasm_binary_name(target).concat(".wasm");
    let module = ModuleDescriptor {
        name: target.name.clone(),
        source,
        abi: cfg.abi,
        bindings: clone_bindings(&cfg.bindings),
    };
    let mut modules: Vec<ModuleDescriptor> = Vec::new();
    modules.push(module);

    let command = if is_binary(target) {
        let cmd = CommandDescriptor {
            name: target.name.clone(),
            module: target.name.clone(),
            package: Some(package_name.clone()),
            main_args: None,
        };
        let mut cmds: Vec<CommandDescriptor> = Vec::new();
        cmds.push(cmd);
        Some(cmds)
    } else {
        None
    };

    Ok(
        PackageManifest {
            package: PackageDescriptor {
                name: package_name,
                version: unit.version.clone(),
                description,
                license: clone_opt_string(&unit.license),
                license_file: clone_opt_path(&unit.license_file),
                readme: clone_opt_path(&unit.readme),
                repository: clone_opt_string(&unit.repository),
                homepage: clone_opt_string(&unit.homepage),
                wasmer_extra_flags: clone_opt_string(&cfg.wasmer_extra_flags),
                disable_command_rename: false,
                rename_commands_to_raw_command_name: false,
            },
            module: modules,
            command,
            fs: clone_fs_entries(&cfg.fs),
            base_directory_path: FsPath::empty(),
        },
    )
}

} // verus!
