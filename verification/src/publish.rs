//! The whole pipeline, planned per unit: which units to publish and, for
//! each, the synthesized manifest, the compiler invocation, the expected
//! artifact location, the assembly plan, and the publisher's arguments.
//!
//! The plan is strictly sequential and fail-fast: units are planned in
//! publish-set order and the first failing unit aborts the run. The
//! caller executes each plan in order: it runs the compiler, checks the
//! artifact, writes the manifest, performs the copies, and runs the
//! registry tool.

use vstd::prelude::*;
use vstd::string::StringExecFns;
use crate::fspath::FsPath;
use crate::error::PublishError;
use crate::model::{Unit, Workspace};
use crate::resolve::{
    determine_crates_to_publish, determine_target, dir_matches, manifest_depth, qualifying_of,
    workspace_selected,
};
use crate::manifest::{PackageManifest, generate_manifest, manifest_matches};
use crate::compile::{
    BuildInvocation, build_invocation, build_invocation_matches, expected_binary_path,
    expected_binary_seq,
};
use crate::assemble::{PackPlan, copies_view, manifest_file_seq, pack_copies_seq, pack_plan};
use crate::publisher::{publish_args, publish_args_seq};

verus! {

/// The publish command's intent, as the caller's command line expressed
/// it. The manifest path and feature flags steer how the workspace is
/// inspected; the rest steers the pipeline itself.
pub struct Publish {
    /// Build and assemble the package, but tell the registry tool not to
    /// take effect remotely.
    pub dry_run: bool,
    /// An explicit manifest-file path for the workspace inspection.
    pub manifest_path: Option<FsPath>,
    /// Publish every opted-in unit of the workspace.
    pub workspace: bool,
    /// Features to enable while compiling.
    pub features: Option<Vec<String>>,
    /// Compile with all features enabled.
    pub all_features: bool,
    /// Do not activate the default feature while compiling.
    pub no_default_features: bool,
    /// Units to leave out in workspace mode.
    pub exclude: Vec<String>,
    /// Compile without optimizations.
    pub debug: bool,
}

/// Everything decided for one unit before any external work happens.
pub struct UnitPlan {
    /// Index of the unit in the workspace's member list.
    pub unit_index: usize,
    /// The package directory: `{shared-output-dir}/wapm/{unit-name}`.
    pub dest: FsPath,
    pub manifest: PackageManifest,
    pub build: BuildInvocation,
    pub expected_binary: FsPath,
    pub pack: PackPlan,
    pub publish_args: Vec<String>,
}

/// Whether a unit can be planned at all: exactly one qualifying target,
/// a well-formed metadata sub-table, and a non-empty description.
pub open spec fn unit_ok(unit: Unit) -> bool {
    &&& qualifying_of(unit.targets@).len() == 1
    &&& unit.metadata is Wapm
    &&& unit.description matches Some(d) && d@.len() > 0
}

/// What the plan of one unit holds. Note that the dry-run request reaches
/// only the publisher's arguments: the build, the expected artifact, and
/// the assembly plan are the same either way.
pub open spec fn plan_matches(
    plan: UnitPlan,
    ws: Workspace,
    idx: int,
    debug: bool,
    dry_run: bool,
) -> bool {
    let unit = ws.members@[idx];
    let cfg = unit.metadata->Wapm_0;
    let target = qualifying_of(unit.targets@)[0];
    &&& plan.unit_index == idx
    &&& plan.dest@ == ws.target_directory@.push("wapm"@).push(unit.name@)
    &&& manifest_matches(plan.manifest, unit, target)
    &&& build_invocation_matches(plan.build, unit, cfg.abi, debug)
    &&& plan.expected_binary@ == expected_binary_seq(ws.target_directory@, cfg.abi, debug, target)
    &&& plan.pack.manifest_dest@ == plan.dest@.push(manifest_file_seq())
    &&& copies_view(plan.pack.copies) == pack_copies_seq(plan.dest@, plan.expected_binary@, unit)
    &&& plan.publish_args.deep_view() == publish_args_seq(dry_run)
}

/// Whether an error is the one the pipeline reports for this unit.
pub open spec fn error_explains(e: PublishError, unit: Unit) -> bool {
    match e {
        PublishError::NoPublishableTarget { unit: n } => n@ == unit.name@ && qualifying_of(
            unit.targets@,
        ).len() == 0,
        PublishError::AmbiguousTarget { candidates } => candidates@ == qualifying_of(unit.targets@)
            && qualifying_of(unit.targets@).len() >= 2,
        PublishError::InvalidMetadata { unit: n } => n@ == unit.name@ && qualifying_of(
            unit.targets@,
        ).len() == 1 && !(unit.metadata is Wapm),
        PublishError::MissingDescription { unit: n, present_but_empty } => {
            &&& n@ == unit.name@
            &&& qualifying_of(unit.targets@).len() == 1
            &&& unit.metadata is Wapm
            &&& if present_but_empty {
                unit.description matches Some(d) && d@.len() == 0
            } else {
                unit.description is None
            }
        },
        _ => false,
    }
}

/// Plans one unit end to end.
pub fn plan_unit(ws: &Workspace, idx: usize, debug: bool, dry_run: bool) -> (r: Result<
    UnitPlan,
    PublishError,
>)
    requires
        ws.wf(),
        idx < ws.members@.len(),
    ensures
        unit_ok(ws.members@[idx as int]) ==> (r matches Ok(plan) && plan_matches(
            plan,
            *ws,
            idx as int,
            debug,
            dry_run,
        )),
        !unit_ok(ws.members@[idx as int]) ==> (r matches Err(e) && error_explains(
            e,
            ws.members@[idx as int],
        )),
{
    let unit = &ws.members[idx];
    let target = match determine_target(unit) {
        Ok(t) => t,
        Err(e) => {
            return Err(e);
        },
    };
    let manifest = match generate_manifest(unit, &target) {
        Ok(m) => m,
        Err(e) => {
            return Err(e);
        },
    };
    let abi = manifest.module[0].abi;
    let dest = ws.target_directory.push_component(String::from_str("wapm")).push_component(
        unit.name.clone(),
    );
    let build = build_invocation(unit, abi, debug);
    let expected_binary = expected_binary_path(&ws.target_directory, abi, debug, &target);
    let pack = pack_plan(&dest, &expected_binary, unit);
    let args = publish_args(dry_run);
    Ok(
        UnitPlan {
            unit_index: idx,
            dest,
            manifest,
            build,
            expected_binary,
            pack,
            publish_args: args,
        },
    )
}

/// Dry-run mode performs the same build and the same assembly: two plans
/// of the same unit under the same debug setting agree on the package
/// directory, the compiler invocation, the expected artifact, and every
/// copy; only the publisher's arguments carry the dry-run request.
pub proof fn lemma_dry_run_scope(
    p1: UnitPlan,
    p2: UnitPlan,
    ws: Workspace,
    idx: int,
    debug: bool,
    d1: bool,
    d2: bool,
)
    requires
        plan_matches(p1, ws, idx, debug, d1),
        plan_matches(p2, ws, idx, debug, d2),
    ensures
        p1.dest@ == p2.dest@,
        p1.build.manifest_path@ == p2.build.manifest_path@,
        p1.build.target_triple@ == p2.build.target_triple@,
        p1.build.release == p2.build.release,
        p1.expected_binary@ == p2.expected_binary@,
        p1.pack.manifest_dest@ == p2.pack.manifest_dest@,
        copies_view(p1.pack.copies) == copies_view(p2.pack.copies),
        p1.publish_args.deep_view() == publish_args_seq(d1),
        p2.publish_args.deep_view() == publish_args_seq(d2),
{
}

/// The best single-unit candidate: its manifest directory contains the
/// current directory, no match is deeper, and of equally deep matches it
/// is the last.
pub open spec fn best_candidate(ws: Workspace, current: Seq<Seq<char>>, i: int) -> bool {
    &&& 0 <= i < ws.members@.len()
    &&& dir_matches(ws.members@[i], current)
    &&& forall|j: int|
        0 <= j < ws.members@.len() && dir_matches(#[trigger] ws.members@[j], current)
            ==> manifest_depth(ws.members@[j]) <= manifest_depth(ws.members@[i])
    &&& forall|j: int|
        0 <= j < ws.members@.len() && dir_matches(#[trigger] ws.members@[j], current)
            && manifest_depth(ws.members@[j]) == manifest_depth(ws.members@[i]) ==> j <= i
}

/// Which unit single-unit mode resolves to: the best candidate when one
/// exists, the designated root unit otherwise.
pub open spec fn single_choice(ws: Workspace, current: Seq<Seq<char>>, i: int) -> bool {
    if exists|j: int|
        0 <= j < ws.members@.len() && dir_matches(#[trigger] ws.members@[j], current) {
        best_candidate(ws, current, i)
    } else {
        ws.root matches Some(r) && r == i
    }
}

impl Publish {
    /// Plans the whole run: decides the publish set and plans every
    /// selected unit, in order, stopping at the first unit that cannot
    /// be planned.
    pub fn execute(&self, ws: &Workspace, current_dir: &FsPath) -> (r: Result<
        Vec<UnitPlan>,
        PublishError,
    >)
        requires
            ws.wf(),
        ensures
            self.workspace ==> (r matches Ok(plans) ==> {
                &&& forall|k: int|
                    0 <= k < plans@.len() ==> (#[trigger] plans@[k]).unit_index
                        < ws.members@.len() && workspace_selected(
                        ws.members@[plans@[k].unit_index as int],
                        self.exclude.deep_view(),
                    ) && unit_ok(ws.members@[plans@[k].unit_index as int]) && plan_matches(
                        plans@[k],
                        *ws,
                        plans@[k].unit_index as int,
                        self.debug,
                        self.dry_run,
                    )
                &&& forall|k1: int, k2: int|
                    0 <= k1 < k2 < plans@.len() ==> plans@[k1].unit_index < plans@[k2].unit_index
                &&& forall|i: int|
                    0 <= i < ws.members@.len() && workspace_selected(
                        #[trigger] ws.members@[i],
                        self.exclude.deep_view(),
                    ) ==> exists|k: int| 0 <= k < plans@.len() && plans@[k].unit_index == i
            }),
            self.workspace ==> (r matches Err(e) ==> exists|i: int|
                0 <= i < ws.members@.len() && workspace_selected(
                    #[trigger] ws.members@[i],
                    self.exclude.deep_view(),
                ) && error_explains(e, ws.members@[i])),
            self.workspace && (forall|i: int|
                0 <= i < ws.members@.len() && workspace_selected(
                    #[trigger] ws.members@[i],
                    self.exclude.deep_view(),
                ) ==> unit_ok(ws.members@[i])) ==> r is Ok,
            !self.workspace ==> (r matches Ok(plans) ==> plans@.len() == 1 && single_choice(
                *ws,
                current_dir@,
                plans@[0].unit_index as int,
            ) && unit_ok(ws.members@[plans@[0].unit_index as int]) && plan_matches(
                plans@[0],
                *ws,
                plans@[0].unit_index as int,
                self.debug,
                self.dry_run,
            )),
            !self.workspace ==> (r matches Err(e) ==> ((e is Resolution && ws.root is None && !(
            exists|i: int|
                0 <= i < ws.members@.len() && dir_matches(
                    #[trigger] ws.members@[i],
                    current_dir@,
                ))) || (exists|i: int|
                single_choice(*ws, current_dir@, i) && 0 <= i < ws.members@.len()
                    && error_explains(e, ws.members@[i])))),
            !self.workspace && ws.root is None && !(exists|i: int|
                0 <= i < ws.members@.len() && dir_matches(#[trigger] ws.members@[i], current_dir@))
                ==> (r matches Err(e) && e is Resolution),
    {
        let sel = match determine_crates_to_publish(ws, self.workspace, current_dir, &self.exclude) {
            Ok(s) => s,
            Err(e) => {
                return Err(e);
            },
        };
        proof {
            // The resolver splits single-unit mode into a candidate case
            // and a root-fallback case; naming the case lets its clause
            // instantiate here.
            if !self.workspace {
                if exists|i: int|
                    0 <= i < ws.members@.len() && dir_matches(
                        #[trigger] ws.members@[i],
                        current_dir@,
                    ) {
                    assert(best_candidate(*ws, current_dir@, sel@[0] as int));
                }
                assert(single_choice(*ws, current_dir@, sel@[0] as int));
            }
        }
        let mut plans: Vec<UnitPlan> = Vec::new();
        let mut k: usize = 0;
        while k < sel.len()
            invariant
                ws.wf(),
                k <= sel@.len(),
                plans@.len() == k,
                forall|j: int| 0 <= j < sel@.len() ==> (#[trigger] sel@[j]) < ws.members@.len(),
                self.workspace ==> forall|j: int|
                    0 <= j < sel@.len() ==> workspace_selected(
                        ws.members@[(#[trigger] sel@[j]) as int],
                        self.exclude.deep_view(),
                    ),
                !self.workspace ==> sel@.len() == 1 && single_choice(
                    *ws,
                    current_dir@,
                    sel@[0] as int,
                ),
                forall|j: int|
                    0 <= j < k ==> (#[trigger] plans@[j]).unit_index == sel@[j] && unit_ok(
                        ws.members@[sel@[j] as int],
                    ) && plan_matches(
                        plans@[j],
                        *ws,
                        sel@[j] as int,
                        self.debug,
                        self.dry_run,
                    ),
            decreases sel@.len() - k,
        {
            let idx = sel[k];
            match plan_unit(ws, idx, self.debug, self.dry_run) {
                Ok(p) => {
                    plans.push(p);
                },
                Err(e) => {
                    proof {
                        assert(error_explains(e, ws.members@[idx as int]));
                        if self.workspace {
                            assert(workspace_selected(
                                ws.members@[idx as int],
                                self.exclude.deep_view(),
                            ));
                        } else {
                            assert(single_choice(*ws, current_dir@, idx as int));
                        }
                    }
                    return Err(e);
                },
            }
            k = k + 1;
        }
        proof {
            if self.workspace {
                assert forall|i: int|
                    0 <= i < ws.members@.len() && workspace_selected(
                        #[trigger] ws.members@[i],
                        self.exclude.deep_view(),
                    ) implies exists|k0: int|
                    0 <= k0 < plans@.len() && plans@[k0].unit_index == i by {
                    let k0 = choose|k0: int| 0 <= k0 < sel@.len() && sel@[k0] == i;
                    assert(plans@[k0].unit_index == i);
                }
            }
        }
        Ok(plans)
    }
}

} // verus!
