//! Deciding what to publish: which workspace members form the publish
//! set, and which build target inside a unit is the publishable artifact.

use vstd::prelude::*;
use crate::fspath::FsPath;
use crate::fspath::lemma_segs_view;
use crate::error::PublishError;
use crate::model::{Target, TargetKind, Unit, Workspace, MetadataEntry};

verus! {

/// Whether a target is a WebAssembly library artifact.
pub open spec fn spec_is_webassembly_library(t: Target) -> bool {
    t.kind == TargetKind::Library
}

/// Whether a target is an executable.
pub open spec fn spec_is_binary(t: Target) -> bool {
    t.kind == TargetKind::Executable
}

pub fn is_webassembly_library(t: &Target) -> (r: bool)
    ensures
        r == spec_is_webassembly_library(*t),
{
    t.kind == TargetKind::Library
}

pub fn is_binary(t: &Target) -> (r: bool)
    ensures
        r == spec_is_binary(*t),
{
    t.kind == TargetKind::Executable
}

/// Whether a target qualifies for publication.
pub open spec fn publishable(t: Target) -> bool {
    spec_is_webassembly_library(t) || spec_is_binary(t)
}

/// The subsequence of targets that qualify for publication, in order.
pub open spec fn qualifying_of(ts: Seq<Target>) -> Seq<Target>
    decreases ts.len(),
{
    if ts.len() == 0 {
        Seq::empty()
    } else {
        let pre = qualifying_of(ts.drop_last());
        if publishable(ts.last()) {
            pre.push(ts.last())
        } else {
            pre
        }
    }
}

/// Picks the single publishable target of a unit.
///
/// Exactly one qualifying target is selected; zero qualifying targets
/// fail naming the unit, and two or more fail listing every candidate.
/// Ambiguity is a configuration error, never resolved by a heuristic.
pub fn determine_target(unit: &Unit) -> (r: Result<Target, PublishError>)
    ensures
        qualifying_of(unit.targets@).len() == 1 ==> (r matches Ok(t) && t == qualifying_of(
            unit.targets@,
        )[0]),
        qualifying_of(unit.targets@).len() == 0 ==> (r matches Err(e) && e matches
            PublishError::NoPublishableTarget { unit: n } && n@ == unit.name@),
        qualifying_of(unit.targets@).len() >= 2 ==> (r matches Err(e) && e matches
            PublishError::AmbiguousTarget { candidates } && candidates@ == qualifying_of(
            unit.targets@,
        )),
{
    let mut candidates: Vec<Target> = Vec::new();
    let mut i: usize = 0;
    proof {
        assert(unit.targets@.subrange(0, 0) =~= Seq::<Target>::empty());
    }
    while i < unit.targets.len()
        invariant
            i <= unit.targets@.len(),
            candidates@ == qualifying_of(unit.targets@.subrange(0, i as int)),
        decreases unit.targets@.len() - i,
    {
        proof {
            assert(unit.targets@.subrange(0, i + 1 as int).drop_last() =~= unit.targets@.subrange(
                0,
                i as int,
            ));
            assert(unit.targets@.subrange(0, i + 1 as int).last() == unit.targets@[i as int]);
        }
        let t = &unit.targets[i];
        if is_webassembly_library(t) || is_binary(t) {
            candidates.push(t.duplicate());
        }
        i = i + 1;
    }
    proof {
        assert(unit.targets@.subrange(0, unit.targets@.len() as int) =~= unit.targets@);
    }
    if candidates.len() == 1 {
        let single = candidates[0].duplicate();
        Ok(single)
    } else if candidates.len() == 0 {
        Err(PublishError::NoPublishableTarget { unit: self_name(unit) })
    } else {
        Err(PublishError::AmbiguousTarget { candidates })
    }
}

/// A copy of the unit's name.
fn self_name(unit: &Unit) -> (r: String)
    ensures
        r@ == unit.name@,
{
    unit.name.clone()
}

/// Whether a name occurs in the exclude list.
pub open spec fn excluded(name: Seq<char>, exclude: Seq<Seq<char>>) -> bool {
    exists|j: int| 0 <= j < exclude.len() && exclude[j] == name
}

/// Whether workspace mode publishes a unit: it is not excluded by name,
/// and its metadata holds the publish sub-table (absence of the sub-table
/// is the opt-out; even a malformed sub-table opts in).
pub open spec fn workspace_selected(u: Unit, exclude: Seq<Seq<char>>) -> bool {
    !excluded(u.name@, exclude) && !(u.metadata is Absent)
}

/// Whether the unit's manifest directory is a prefix of the current
/// working directory.
pub open spec fn dir_matches(u: Unit, current: Seq<Seq<char>>) -> bool {
    u.manifest_dir().is_prefix_of(current)
}

/// How specific a unit's manifest path is: its number of components.
pub open spec fn manifest_depth(u: Unit) -> nat {
    u.manifest_path@.len()
}

fn name_in(name: &String, exclude: &Vec<String>) -> (r: bool)
    ensures
        r == excluded(name@, exclude.deep_view()),
{
    proof {
        lemma_segs_view(*exclude);
    }
    let mut i: usize = 0;
    while i < exclude.len()
        invariant
            i <= exclude@.len(),
            exclude.deep_view().len() == exclude@.len(),
            forall|j: int| 0 <= j < exclude@.len() ==> exclude.deep_view()[j] == exclude@[j]@,
            forall|j: int| 0 <= j < i ==> exclude@[j]@ != name@,
        decreases exclude@.len() - i,
    {
        if exclude[i] == *name {
            proof {
                assert(exclude.deep_view()[i as int] == name@);
            }
            return true;
        }
        i = i + 1;
    }
    false
}

/// Decides which units to publish.
///
/// In workspace mode every member is published except those excluded by
/// name and those whose metadata lacks the publish sub-table, in member
/// order. In single-unit mode the member whose manifest directory
/// contains the current working directory is published; of several nested
/// matches the most specific (deepest manifest path, later member on
/// equal depth) wins; with no match at all, the workspace's designated
/// root unit is the fallback, and without a root unit resolution fails.
pub fn determine_crates_to_publish(
    ws: &Workspace,
    workspace: bool,
    current_dir: &FsPath,
    exclude: &Vec<String>,
) -> (r: Result<Vec<usize>, PublishError>)
    requires
        ws.wf(),
    ensures
        workspace ==> (r matches Ok(sel) && {
            &&& forall|k: int|
                0 <= k < sel@.len() ==> (#[trigger] sel@[k]) < ws.members@.len()
                    && workspace_selected(ws.members@[sel@[k] as int], exclude.deep_view())
            &&& forall|k1: int, k2: int| 0 <= k1 < k2 < sel@.len() ==> sel@[k1] < sel@[k2]
            &&& forall|i: int|
                0 <= i < ws.members@.len() && workspace_selected(
                    #[trigger] ws.members@[i],
                    exclude.deep_view(),
                ) ==> exists|k: int| 0 <= k < sel@.len() && sel@[k] == i
        }),
        !workspace && (exists|i: int|
            0 <= i < ws.members@.len() && dir_matches(#[trigger] ws.members@[i], current_dir@))
            ==> (r matches Ok(sel) && sel@.len() == 1 && {
            let best = sel@[0] as int;
            &&& 0 <= best < ws.members@.len()
            &&& dir_matches(ws.members@[best], current_dir@)
            &&& forall|j: int|
                0 <= j < ws.members@.len() && dir_matches(#[trigger] ws.members@[j], current_dir@)
                    ==> manifest_depth(ws.members@[j]) <= manifest_depth(ws.members@[best])
            &&& forall|j: int|
                0 <= j < ws.members@.len() && dir_matches(#[trigger] ws.members@[j], current_dir@)
                    && manifest_depth(ws.members@[j]) == manifest_depth(ws.members@[best]) ==> j
                    <= best
        }),
        !workspace && !(exists|i: int|
            0 <= i < ws.members@.len() && dir_matches(#[trigger] ws.members@[i], current_dir@))
            && ws.root is Some ==> (r matches Ok(sel) && sel@.len() == 1 && sel@[0]
            == ws.root->Some_0),
        !workspace && !(exists|i: int|
            0 <= i < ws.members@.len() && dir_matches(#[trigger] ws.members@[i], current_dir@))
            && ws.root is None ==> (r matches Err(e) && e is Resolution),
{
    if workspace {
        let mut sel: Vec<usize> = Vec::new();
        let mut i: usize = 0;
        while i < ws.members.len()
            invariant
                i <= ws.members@.len(),
                forall|k: int|
                    0 <= k < sel@.len() ==> (#[trigger] sel@[k]) < i && workspace_selected(
                        ws.members@[sel@[k] as int],
                        exclude.deep_view(),
                    ),
                forall|k1: int, k2: int| 0 <= k1 < k2 < sel@.len() ==> sel@[k1] < sel@[k2],
                forall|j: int|
                    0 <= j < i && workspace_selected(#[trigger] ws.members@[j], exclude.deep_view())
                        ==> exists|k: int| 0 <= k < sel@.len() && sel@[k] == j,
            decreases ws.members@.len() - i,
        {
            let unit = &ws.members[i];
            let keep = if name_in(&unit.name, exclude) {
                false
            } else {
                match &unit.metadata {
                    MetadataEntry::Absent => false,
                    MetadataEntry::Malformed => true,
                    MetadataEntry::Wapm(_) => true,
                }
            };
            proof {
                assert(keep == workspace_selected(ws.members@[i as int], exclude.deep_view()));
            }
            if keep {
                let ghost pre_sel = sel@;
                sel.push(i);
                proof {
                    assert forall|k: int|
                        0 <= k < sel@.len() implies (#[trigger] sel@[k]) < i + 1
                        && workspace_selected(
                        ws.members@[sel@[k] as int],
                        exclude.deep_view(),
                    ) by {
                        if k < sel@.len() - 1 {
                            assert(sel@[k] == pre_sel[k]);
                            assert(workspace_selected(
                                ws.members@[pre_sel[k] as int],
                                exclude.deep_view(),
                            ));
                        } else {
                            assert(sel@[k] == i);
                        }
                    }
                    assert forall|k1: int, k2: int|
                        0 <= k1 < k2 < sel@.len() implies sel@[k1] < sel@[k2] by {
                        assert(sel@[k1] == pre_sel[k1]);
                        if k2 < sel@.len() - 1 {
                            assert(sel@[k2] == pre_sel[k2]);
                        } else {
                            assert(sel@[k2] == i);
                        }
                    }
                    assert forall|j: int|
                        0 <= j < i + 1 && workspace_selected(
                            #[trigger] ws.members@[j],
                            exclude.deep_view(),
                        ) implies exists|k: int| 0 <= k < sel@.len() && sel@[k] == j by {
                        if j == i {
                            assert(sel@[sel@.len() - 1] == j);
                        } else {
                            let k0 = choose|k: int| 0 <= k < pre_sel.len() && pre_sel[k] == j;
                            assert(sel@[k0] == j);
                        }
                    }
                }
            }
            i = i + 1;
        }
        Ok(sel)
    } else {
        let mut best: usize = 0;
        let mut found = false;
        let mut i: usize = 0;
        while i < ws.members.len()
            invariant
                i <= ws.members@.len(),
                ws.wf(),
                found ==> best < i && dir_matches(ws.members@[best as int], current_dir@),
                found ==> forall|j: int|
                    0 <= j < i && dir_matches(#[trigger] ws.members@[j], current_dir@)
                        ==> manifest_depth(ws.members@[j]) <= manifest_depth(
                        ws.members@[best as int],
                    ),
                found ==> forall|j: int|
                    0 <= j < i && dir_matches(#[trigger] ws.members@[j], current_dir@)
                        && manifest_depth(ws.members@[j]) == manifest_depth(
                        ws.members@[best as int],
                    ) ==> j <= best,
                !found ==> forall|j: int|
                    0 <= j < i ==> !dir_matches(#[trigger] ws.members@[j], current_dir@),
            decreases ws.members@.len() - i,
        {
            let dir = ws.members[i].manifest_path.parent();
            if dir.is_prefix_of(current_dir) {
                proof {
                    assert(dir_matches(ws.members@[i as int], current_dir@));
                }
                if !found || ws.members[i].manifest_path.len()
                    >= ws.members[best].manifest_path.len() {
                    best = i;
                    found = true;
                }
            }
            i = i + 1;
        }
        if found {
            let mut sel: Vec<usize> = Vec::new();
            sel.push(best);
            Ok(sel)
        } else {
            match ws.root {
                Some(root) => {
                    let mut sel: Vec<usize> = Vec::new();
                    sel.push(root);
                    Ok(sel)
                },
                None => Err(PublishError::Resolution),
            }
        }
    }
}

} // verus!
