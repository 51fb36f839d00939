//! The data model of the publishing pipeline: compilation units, their
//! build targets, the binary ABI, and the publish-specific metadata
//! sub-table read from each unit's manifest.
//!
//! Values of these types are plain data. The caller that inspects the
//! workspace (an unverified shell around this library) converts what the
//! project-description tooling reports into this model once per run;
//! everything downstream is verified against it.

use vstd::prelude::*;
use crate::fspath::FsPath;

verus! {

/// The kind of a build target. Only library artifacts and executables are
/// publishable; everything else is never selected.
#[derive(Clone, Copy, Debug, PartialEq, Eq, Structural)]
pub enum TargetKind {
    /// A WebAssembly library artifact (a `cdylib` in Cargo terms).
    Library,
    /// An executable (`bin`) target.
    Executable,
    /// Any other target kind (rlib, test, bench, example, ...).
    Other,
}

/// One buildable artifact within a unit.
#[derive(Debug)]
pub struct Target {
    pub name: String,
    pub kind: TargetKind,
}

impl Target {
    pub fn duplicate(&self) -> (r: Target)
        ensures
            r == *self,
    {
        Target { name: self.name.clone(), kind: self.kind }
    }
}

/// The binary ABI a compiled artifact conforms to; it selects the
/// compiler's target triple.
#[derive(Clone, Copy, Debug, PartialEq, Eq, Structural)]
pub enum BuildAbi {
    /// No particular runtime ABI: the generic WebAssembly triple.
    NoAbi,
    Wasi,
    Emscripten,
    /// WASM4 also compiles for the generic WebAssembly triple.
    Wasm4,
}

/// A reference to auxiliary interface-description files that must be
/// copied alongside the compiled binary. Paths are relative to the unit's
/// manifest directory; version numbers are carried verbatim for the
/// serialized manifest.
pub enum BindingsModel {
    Wit { wit_bindgen: String, wit_exports: FsPath },
    Wai { wai_version: String, exports: Option<FsPath>, imports: Vec<FsPath> },
}

/// The mathematical value of a [`BindingsModel`].
pub enum BindingsView {
    Wit { wit_bindgen: Seq<char>, wit_exports: Seq<Seq<char>> },
    Wai { wai_version: Seq<char>, exports: Option<Seq<Seq<char>>>, imports: Seq<Seq<Seq<char>>> },
}

/// The views of a vector of paths.
pub open spec fn paths_view(v: Vec<FsPath>) -> Seq<Seq<Seq<char>>> {
    Seq::new(v@.len(), |i: int| v@[i]@)
}

/// Relates [`paths_view`] to the vector's elements for extensionality.
pub proof fn lemma_paths_view(v: Vec<FsPath>)
    ensures
        paths_view(v).len() == v@.len(),
        forall|j: int| 0 <= j < v@.len() ==> paths_view(v)[j] == v@[j]@,
{
}

/// The view of an optional string.
pub open spec fn opt_string_view(s: Option<String>) -> Option<Seq<char>> {
    match s {
        Some(t) => Some(t@),
        None => None,
    }
}

/// The view of an optional path.
pub open spec fn opt_path_view(p: Option<FsPath>) -> Option<Seq<Seq<char>>> {
    match p {
        Some(q) => Some(q@),
        None => None,
    }
}

impl View for BindingsModel {
    type V = BindingsView;

    open spec fn view(&self) -> BindingsView {
        match self {
            BindingsModel::Wit { wit_bindgen, wit_exports } => BindingsView::Wit {
                wit_bindgen: wit_bindgen@,
                wit_exports: wit_exports@,
            },
            BindingsModel::Wai { wai_version, exports, imports } => BindingsView::Wai {
                wai_version: wai_version@,
                exports: opt_path_view(*exports),
                imports: paths_view(*imports),
            },
        }
    }
}

/// The view of optional bindings.
pub open spec fn opt_bindings_view(b: Option<BindingsModel>) -> Option<BindingsView> {
    match b {
        Some(m) => Some(m@),
        None => None,
    }
}

/// One entry of the filesystem mapping table: a guest path mapped to a
/// host path, copied verbatim into the synthesized manifest.
pub struct FsEntry {
    pub guest: String,
    pub host: FsPath,
}

/// The views of a filesystem mapping table.
pub open spec fn fs_entries_view(v: Vec<FsEntry>) -> Seq<(Seq<char>, Seq<Seq<char>>)> {
    Seq::new(v@.len(), |i: int| (v@[i].guest@, v@[i].host@))
}

/// Relates [`fs_entries_view`] to the vector's elements for
/// extensionality.
pub proof fn lemma_fs_entries_view(v: Vec<FsEntry>)
    ensures
        fs_entries_view(v).len() == v@.len(),
        forall|j: int| 0 <= j < v@.len() ==> fs_entries_view(v)[j] == (v@[j].guest@, v@[j].host@),
{
}

/// The publish-specific metadata sub-table of a unit, as a typed
/// structure: registry flags, the filesystem mapping table, the ABI, the
/// target namespace, an optional package-name override, and an optional
/// bindings reference.
pub struct WapmConfig {
    pub namespace: String,
    pub package: Option<String>,
    pub wasmer_extra_flags: Option<String>,
    pub abi: BuildAbi,
    pub fs: Vec<FsEntry>,
    pub bindings: Option<BindingsModel>,
}

/// What the unit's metadata held for the publish sub-table: nothing at
/// all, a sub-table of the wrong shape, or a well-formed table.
pub enum MetadataEntry {
    Absent,
    Malformed,
    Wapm(WapmConfig),
}

/// A compilation unit of the workspace. Loaded once per run and immutable
/// thereafter.
pub struct Unit {
    pub name: String,
    pub version: String,
    pub description: Option<String>,
    pub license: Option<String>,
    /// Relative to the unit's manifest directory.
    pub license_file: Option<FsPath>,
    /// Relative to the unit's manifest directory.
    pub readme: Option<FsPath>,
    pub repository: Option<String>,
    pub homepage: Option<String>,
    /// The path of the unit's own manifest file.
    pub manifest_path: FsPath,
    pub metadata: MetadataEntry,
    pub targets: Vec<Target>,
}

impl Unit {
    /// A unit is well formed when its manifest path has a file component,
    /// so the manifest directory exists, and its optional auxiliary file
    /// paths are not empty.
    pub open spec fn wf(&self) -> bool {
        &&& self.manifest_path@.len() > 0
        &&& (self.license_file matches Some(p) ==> p@.len() > 0)
        &&& (self.readme matches Some(p) ==> p@.len() > 0)
    }

    /// The directory that holds the unit's manifest file.
    pub open spec fn manifest_dir(&self) -> Seq<Seq<char>> {
        self.manifest_path@.drop_last()
    }
}

/// The workspace as the pipeline sees it: its member units, the
/// designated root unit if any, and the shared build-output directory.
pub struct Workspace {
    pub members: Vec<Unit>,
    /// Index of the workspace's designated root unit in `members`.
    pub root: Option<usize>,
    pub target_directory: FsPath,
}

impl Workspace {
    pub open spec fn wf(&self) -> bool {
        &&& (self.root matches Some(i) ==> i < self.members@.len())
        &&& forall|j: int| 0 <= j < self.members@.len() ==> (#[trigger] self.members@[j]).wf()
    }
}

} // verus!
