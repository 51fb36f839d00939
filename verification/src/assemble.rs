//! Assembling the package directory: where the serialized manifest goes
//! and which files are copied where.
//!
//! The plan is computed and verified here; the caller creates the
//! directory, writes the manifest text, and performs the copies. Every
//! destination is inside the package directory, and bindings-referenced
//! files keep their location relative to the unit's manifest directory.

use vstd::prelude::*;
use vstd::string::StringExecFns;
use crate::fspath::{FsPath, normalize_segs};
use crate::error::PublishError;
use crate::model::Unit;

verus! {

/// One file copy of the assembly plan.
pub struct CopyEntry {
    pub from: FsPath,
    pub to: FsPath,
}

/// The views of a copy list.
pub open spec fn copies_view(v: Vec<CopyEntry>) -> Seq<(Seq<Seq<char>>, Seq<Seq<char>>)> {
    Seq::new(v@.len(), |i: int| (v@[i].from@, v@[i].to@))
}

/// Relates [`copies_view`] to the vector's elements for extensionality.
pub proof fn lemma_copies_view(v: Vec<CopyEntry>)
    ensures
        copies_view(v).len() == v@.len(),
        forall|j: int| 0 <= j < v@.len() ==> copies_view(v)[j] == (v@[j].from@, v@[j].to@),
{
}

/// The fixed name of the serialized manifest file inside the package
/// directory.
pub open spec fn manifest_file_seq() -> Seq<char> {
    "wapm.toml"@
}

/// The copies of the static part of the assembly plan: the compiled
/// binary under its own file name, then the unit's license file and
/// readme (resolved relative to the manifest directory) under their base
/// file names, each only when the unit has one.
pub open spec fn pack_copies_seq(
    dest: Seq<Seq<char>>,
    wasm_path: Seq<Seq<char>>,
    unit: Unit,
) -> Seq<(Seq<Seq<char>>, Seq<Seq<char>>)> {
    let base = unit.manifest_dir();
    let wasm = seq![(wasm_path, dest.push(wasm_path.last()))];
    let lic = match unit.license_file {
        Some(lf) => seq![(base + lf@, dest.push(lf@.last()))],
        None => Seq::empty(),
    };
    let rdme = match unit.readme {
        Some(rm) => seq![(base + rm@, dest.push(rm@.last()))],
        None => Seq::empty(),
    };
    wasm + lic + rdme
}

/// The assembly plan of one unit: where the serialized manifest is
/// written and which files are copied where.
pub struct PackPlan {
    pub manifest_dest: FsPath,
    pub copies: Vec<CopyEntry>,
}

/// Computes the static assembly plan of a unit: the manifest file's
/// destination and the copies of the binary, license file, and readme.
/// Bindings-referenced files are planned separately once the caller has
/// resolved them on disk.
pub fn pack_plan(dest: &FsPath, wasm_path: &FsPath, unit: &Unit) -> (r: PackPlan)
    requires
        unit.wf(),
        wasm_path@.len() > 0,
    ensures
        r.manifest_dest@ == dest@.push(manifest_file_seq()),
        copies_view(r.copies) == pack_copies_seq(dest@, wasm_path@, *unit),
{
    let manifest_dest = dest.push_component(String::from_str("wapm.toml"));
    let base = unit.manifest_path.parent();
    let mut copies: Vec<CopyEntry> = Vec::new();

    copies.push(
        CopyEntry { from: wasm_path.clone_path(), to: dest.push_component(
            wasm_path.file_name().clone(),
        ) },
    );

    if let Some(lf) = &unit.license_file {
        copies.push(
            CopyEntry { from: base.join(lf), to: dest.push_component(lf.file_name().clone()) },
        );
    }

    if let Some(rm) = &unit.readme {
        copies.push(
            CopyEntry { from: base.join(rm), to: dest.push_component(rm.file_name().clone()) },
        );
    }

    proof {
        lemma_copies_view(copies);
        assert(copies_view(copies) =~= pack_copies_seq(dest@, wasm_path@, *unit));
    }
    PackPlan { manifest_dest, copies }
}

/// Whether a referenced file, resolved against the filesystem's `.` and
/// `..` rules, stays inside the unit's directory tree.
pub open spec fn inside_unit(path: Seq<Seq<char>>, base: Seq<Seq<char>>) -> bool {
    normalize_segs(base).is_prefix_of(normalize_segs(path))
}

/// The destination of one bindings-referenced file: its resolved
/// location relative to the unit's manifest directory, preserved under
/// the package directory (never flattened).
pub open spec fn bindings_dest(
    dest: Seq<Seq<char>>,
    path: Seq<Seq<char>>,
    base: Seq<Seq<char>>,
) -> Seq<Seq<char>> {
    dest + normalize_segs(path).skip(normalize_segs(base).len() as int)
}

/// Plans the copies of the bindings-referenced files of a module.
///
/// Each referenced file keeps its path relative to the unit's manifest
/// directory; a file that resolves outside the unit's tree makes the
/// whole plan fail, because the relative-copy rule cannot be satisfied
/// for it.
pub fn bindings_copies(dest: &FsPath, base_dir: &FsPath, referenced: &Vec<FsPath>) -> (r: Result<
    Vec<CopyEntry>,
    PublishError,
>)
    ensures
        (forall|i: int|
            0 <= i < referenced@.len() ==> inside_unit((#[trigger] referenced@[i])@, base_dir@))
            <==> r is Ok,
        r matches Ok(cs) ==> {
            &&& cs@.len() == referenced@.len()
            &&& forall|i: int|
                0 <= i < referenced@.len() ==> copies_view(cs)[i] == (
                    (#[trigger] referenced@[i])@,
                    bindings_dest(dest@, referenced@[i]@, base_dir@),
                )
        },
        r matches Err(e) ==> (e matches PublishError::PathOutsideUnit { path, unit_dir } && {
            &&& unit_dir@ == base_dir@
            &&& exists|i: int|
                0 <= i < referenced@.len() && (#[trigger] referenced@[i])@ == path@ && !inside_unit(
                    path@,
                    base_dir@,
                )
        }),
{
    let base_norm = base_dir.normalize();
    let mut copies: Vec<CopyEntry> = Vec::new();
    let mut i: usize = 0;
    while i < referenced.len()
        invariant
            i <= referenced@.len(),
            base_norm@ == normalize_segs(base_dir@),
            copies@.len() == i,
            forall|j: int| 0 <= j < i ==> inside_unit((#[trigger] referenced@[j])@, base_dir@),
            forall|j: int|
                0 <= j < i ==> (#[trigger] copies@[j]).from@ == referenced@[j]@ && copies@[j].to@
                    == bindings_dest(dest@, referenced@[j]@, base_dir@),
        decreases referenced@.len() - i,
    {
        let path = &referenced[i];
        let resolved = path.normalize();
        match resolved.strip_prefix(&base_norm) {
            Some(rel) => {
                copies.push(CopyEntry { from: path.clone_path(), to: dest.join(&rel) });
                proof {
                    assert(base_norm@ + rel@ == resolved@);
                    assert(rel@ =~= normalize_segs(referenced@[i as int]@).skip(
                        normalize_segs(base_dir@).len() as int,
                    ));
                }
            },
            None => {
                return Err(
                    PublishError::PathOutsideUnit {
                        path: path.clone_path(),
                        unit_dir: base_dir.clone_path(),
                    },
                );
            },
        }
        i = i + 1;
    }
    proof {
        lemma_copies_view(copies);
        assert(forall|j: int|
            0 <= j < referenced@.len() ==> copies_view(copies)[j] == (
                (#[trigger] referenced@[j])@,
                bindings_dest(dest@, referenced@[j]@, base_dir@),
            ));
    }
    Ok(copies)
}

} // verus!
