//! The pipeline's error taxonomy. Each failure carries the plain data a
//! caller needs to report it; rendering a full message is left to the
//! unverified shell, but each variant has a fixed descriptive phrase so
//! that distinct failures are distinctly messaged.

use vstd::prelude::*;
use crate::fspath::FsPath;
use crate::model::Target;

verus! {

/// Why a pipeline run failed. A failure on one unit aborts the whole run.
#[derive(Debug)]
pub enum PublishError {
    /// Single-unit resolution found no candidate and no root unit.
    Resolution,
    /// The unit has no library-artifact or executable target.
    NoPublishableTarget { unit: String },
    /// The unit has two or more qualifying targets; every candidate is
    /// listed.
    AmbiguousTarget { candidates: Vec<Target> },
    /// The unit's metadata sub-table is missing or of the wrong shape.
    InvalidMetadata { unit: String },
    /// The unit's description field is absent, or present but empty.
    MissingDescription { unit: String, present_but_empty: bool },
    /// An external tool could not be started at all.
    ToolNotFound { tool: String },
    /// The compiler toolchain exited unsuccessfully; the code is absent
    /// when the process was terminated by a signal.
    BuildFailed { code: Option<i32> },
    /// The compiled artifact was not at its expected location after a
    /// successful build.
    ArtifactNotFound { path: FsPath },
    /// A file copy during package assembly failed.
    AssemblyIO { from: FsPath, to: FsPath },
    /// A bindings-referenced file resolves outside the unit's directory
    /// tree, so its unit-relative location cannot be preserved.
    PathOutsideUnit { path: FsPath, unit_dir: FsPath },
    /// The registry-publishing tool exited unsuccessfully.
    PublishFailed { code: Option<i32> },
}

/// The fixed descriptive phrase of each error variant.
pub open spec fn phrase_of(e: PublishError) -> Seq<char> {
    match e {
        PublishError::Resolution => "unable to determine which package to publish; change into the crate folder or request workspace mode"@,
        PublishError::NoPublishableTarget { .. } => "the package doesn't contain any executables or library artifacts"@,
        PublishError::AmbiguousTarget { .. } => "unable to decide what to publish: expected one executable or library artifact"@,
        PublishError::InvalidMetadata { .. } => "unable to deserialize the publish metadata table"@,
        PublishError::MissingDescription { present_but_empty, .. } => if present_but_empty {
            "the description field in the package manifest is empty"@
        } else {
            "the description field in the package manifest wasn't set"@
        },
        PublishError::ToolNotFound { .. } => "unable to start the tool; is it installed?"@,
        PublishError::BuildFailed { .. } => "the compiler toolchain exited unsuccessfully"@,
        PublishError::ArtifactNotFound { .. } => "expected the compiled artifact to exist"@,
        PublishError::AssemblyIO { .. } => "unable to copy a file into the package directory"@,
        PublishError::PathOutsideUnit { .. } => "a bindings file should be inside the unit's directory"@,
        PublishError::PublishFailed { .. } => "the registry tool exited unsuccessfully"@,
    }
}

impl PublishError {
    /// The fixed descriptive phrase of this error.
    pub fn phrase(&self) -> (r: &'static str)
        ensures
            r@ == phrase_of(*self),
    {
        match self {
            PublishError::Resolution => "unable to determine which package to publish; change into the crate folder or request workspace mode",
            PublishError::NoPublishableTarget { .. } => "the package doesn't contain any executables or library artifacts",
            PublishError::AmbiguousTarget { .. } => "unable to decide what to publish: expected one executable or library artifact",
            PublishError::MissingDescription { present_but_empty, .. } => if *present_but_empty {
                "the description field in the package manifest is empty"
            } else {
                "the description field in the package manifest wasn't set"
            },
            PublishError::InvalidMetadata { .. } => "unable to deserialize the publish metadata table",
            PublishError::ToolNotFound { .. } => "unable to start the tool; is it installed?",
            PublishError::BuildFailed { .. } => "the compiler toolchain exited unsuccessfully",
            PublishError::ArtifactNotFound { .. } => "expected the compiled artifact to exist",
            PublishError::AssemblyIO { .. } => "unable to copy a file into the package directory",
            PublishError::PathOutsideUnit { .. } => "a bindings file should be inside the unit's directory",
            PublishError::PublishFailed { .. } => "the registry tool exited unsuccessfully",
        }
    }
}

/// An empty description and an absent description are rejected with
/// distinct phrases.
pub proof fn lemma_description_errors_distinct(unit_a: String, unit_b: String)
    ensures
        phrase_of(
            PublishError::MissingDescription { unit: unit_a, present_but_empty: true },
        ) != phrase_of(
            PublishError::MissingDescription { unit: unit_b, present_but_empty: false },
        ),
{
    reveal_strlit("the description field in the package manifest is empty");
    reveal_strlit("the description field in the package manifest wasn't set");
    assert("the description field in the package manifest is empty"@.len() == 54);
    assert("the description field in the package manifest wasn't set"@.len() == 56);
}

} // verus!
