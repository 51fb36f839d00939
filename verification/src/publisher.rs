//! The final step: invoking the external registry-publishing tool
//! against the assembled package directory.
//!
//! The caller runs the tool with its working directory set to the
//! assembled directory; the arguments and the judgement of the outcome
//! are decided here. Dry-run mode only adds the tool's own dry-run flag:
//! every earlier pipeline step runs for real.

use vstd::prelude::*;
use vstd::string::StringExecFns;
use crate::fspath::lemma_segs_view;
use crate::error::PublishError;
use crate::compile::RunOutcome;

verus! {

/// The arguments the registry tool is invoked with: its publish verb,
/// and its dry-run flag exactly when dry-run was requested.
pub open spec fn publish_args_seq(dry_run: bool) -> Seq<Seq<char>> {
    if dry_run {
        seq!["publish"@, "--dry-run"@]
    } else {
        seq!["publish"@]
    }
}

pub fn publish_args(dry_run: bool) -> (r: Vec<String>)
    ensures
        r.deep_view() == publish_args_seq(dry_run),
{
    let mut args: Vec<String> = Vec::new();
    args.push(String::from_str("publish"));
    if dry_run {
        args.push(String::from_str("--dry-run"));
    }
    proof {
        lemma_segs_view(args);
        assert(args.deep_view() =~= publish_args_seq(dry_run));
    }
    args
}

/// Judges the registry tool's outcome: a tool that could not be started,
/// a non-zero exit (with its code when one exists), or success.
pub fn interpret_publish_outcome(outcome: RunOutcome) -> (r: Result<(), PublishError>)
    ensures
        outcome is NotStarted ==> (r matches Err(e) && e matches PublishError::ToolNotFound {
            tool,
        } && tool@ == "wapm"@),
        outcome matches RunOutcome::Completed { code } ==> ({
            &&& (code == Some(0i32) ==> r is Ok)
            &&& (code != Some(0i32) ==> (r matches Err(e) && e matches
                PublishError::PublishFailed { code: rc } && rc == code))
        }),
{
    match outcome {
        RunOutcome::NotStarted => Err(PublishError::ToolNotFound { tool: String::from_str("wapm") }),
        RunOutcome::Completed { code } => {
            match code {
                Some(c) => {
                    if c == 0 {
                        Ok(())
                    } else {
                        Err(PublishError::PublishFailed { code: Some(c) })
                    }
                },
                None => Err(PublishError::PublishFailed { code: None }),
            }
        },
    }
}

} // verus!
