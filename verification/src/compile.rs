//! The build step: mapping the ABI to the compiler's target triple,
//! describing the compiler invocation, locating the compiled artifact,
//! and judging the invocation's outcome.
//!
//! The caller runs the subprocess and reports back how it ended; every
//! decision about the invocation and its result is made here.

use vstd::prelude::*;
use vstd::string::StringExecFns;
use crate::fspath::FsPath;
use crate::error::PublishError;
use crate::model::{BuildAbi, Target, Unit};
use crate::manifest::binary_name_seq;
use crate::manifest::wasm_binary_name;

verus! {

/// How a subprocess invocation ended: it could not be started at all, or
/// it completed with an exit code (absent when the process was
/// terminated by a signal).
#[derive(Clone, Copy, PartialEq, Eq, Structural)]
pub enum RunOutcome {
    NotStarted,
    Completed { code: Option<i32> },
}

/// The compiler target triple selected by an ABI.
pub open spec fn triple_seq(abi: BuildAbi) -> Seq<char> {
    match abi {
        BuildAbi::Wasi => "wasm32-wasi"@,
        BuildAbi::Emscripten => "wasm32-unknown-emscripten"@,
        BuildAbi::NoAbi => "wasm32-unknown-unknown"@,
        BuildAbi::Wasm4 => "wasm32-unknown-unknown"@,
    }
}

pub fn target_triple(abi: BuildAbi) -> (r: &'static str)
    ensures
        r@ == triple_seq(abi),
{
    match abi {
        BuildAbi::Wasi => "wasm32-wasi",
        BuildAbi::Emscripten => "wasm32-unknown-emscripten",
        BuildAbi::NoAbi => "wasm32-unknown-unknown",
        BuildAbi::Wasm4 => "wasm32-unknown-unknown",
    }
}

/// The profile directory the compiler writes to.
pub open spec fn profile_seq(debug: bool) -> Seq<char> {
    if debug {
        "debug"@
    } else {
        "release"@
    }
}

/// One compiler invocation: `<tool> build --quiet --manifest-path
/// <manifest_path> --target <target_triple>`, plus `--release` when
/// `release` holds. The caller renders the path and runs the tool.
pub struct BuildInvocation {
    pub manifest_path: FsPath,
    pub target_triple: String,
    pub release: bool,
}

/// What the compiler invocation for a unit must be.
pub open spec fn build_invocation_matches(
    b: BuildInvocation,
    unit: Unit,
    abi: BuildAbi,
    debug: bool,
) -> bool {
    &&& b.manifest_path@ == unit.manifest_path@
    &&& b.target_triple@ == triple_seq(abi)
    &&& b.release == !debug
}

/// Describes the compiler invocation for a unit: its own manifest file,
/// the triple of the requested ABI, and an optimized build unless debug
/// mode was requested.
pub fn build_invocation(unit: &Unit, abi: BuildAbi, debug: bool) -> (r: BuildInvocation)
    ensures
        build_invocation_matches(r, *unit, abi, debug),
{
    BuildInvocation {
        manifest_path: unit.manifest_path.clone_path(),
        target_triple: String::from_str(target_triple(abi)),
        release: !debug,
    }
}

/// Where the compiled artifact must appear:
/// `{shared-output-dir}/{triple}/{debug-or-release}/{normalized-name}.wasm`.
pub open spec fn expected_binary_seq(
    target_dir: Seq<Seq<char>>,
    abi: BuildAbi,
    debug: bool,
    target: Target,
) -> Seq<Seq<char>> {
    target_dir.push(triple_seq(abi)).push(profile_seq(debug)).push(
        binary_name_seq(target) + ".wasm"@,
    )
}

pub fn expected_binary_path(target_dir: &FsPath, abi: BuildAbi, debug: bool, target: &Target) -> (r:
    FsPath)
    ensures
        r@ == expected_binary_seq(target_dir@, abi, debug, *target),
{
    let profile = if debug {
        "debug"
    } else {
        "release"
    };
    let file = wasm_binary_name(target).concat(".wasm");
    target_dir.push_component(String::from_str(target_triple(abi))).push_component(
        String::from_str(profile),
    ).push_component(file)
}

/// Judges the compiler invocation's outcome: a toolchain that could not
/// be started, a non-zero exit (with its code when one exists), or
/// success.
pub fn interpret_build_outcome(outcome: RunOutcome) -> (r: Result<(), PublishError>)
    ensures
        outcome is NotStarted ==> (r matches Err(e) && e matches PublishError::ToolNotFound {
            tool,
        } && tool@ == "cargo"@),
        outcome matches RunOutcome::Completed { code } ==> ({
            &&& (code == Some(0i32) ==> r is Ok)
            &&& (code != Some(0i32) ==> (r matches Err(e) && e matches
                PublishError::BuildFailed { code: rc } && rc == code))
        }),
{
    match outcome {
        RunOutcome::NotStarted => Err(
            PublishError::ToolNotFound { tool: String::from_str("cargo") },
        ),
        RunOutcome::Completed { code } => {
            match code {
                Some(c) => {
                    if c == 0 {
                        Ok(())
                    } else {
                        Err(PublishError::BuildFailed { code: Some(c) })
                    }
                },
                None => Err(PublishError::BuildFailed { code: None }),
            }
        },
    }
}

/// Judges whether the compiled artifact is where the naming rule says it
/// must be; its absence after a successful build is an
/// internal-consistency failure, never a silent skip.
pub fn locate_artifact(expected: &FsPath, exists: bool) -> (r: Result<FsPath, PublishError>)
    ensures
        exists ==> (r matches Ok(p) && p@ == expected@),
        !exists ==> (r matches Err(e) && e matches PublishError::ArtifactNotFound { path } && path@
            == expected@),
{
    if exists {
        Ok(expected.clone_path())
    } else {
        Err(PublishError::ArtifactNotFound { path: expected.clone_path() })
    }
}

} // verus!
