//! Gate that decides, from the commit-source kind, whether the generation
//! pipeline should run at all.

use vstd::prelude::*;

verus! {

/// Why the commit-message hook fired.
#[derive(Copy, Clone, PartialEq, Eq, Structural, Debug)]
pub enum CommitSource {
    Empty,
    Message,
    Template,
    Merge,
    Squash,
    Commit,
}

impl Default for CommitSource {
    fn default() -> (r: Self)
        ensures
            r == CommitSource::Empty,
    {
        CommitSource::Empty
    }
}

/// The commit-source kinds for which generation is applicable.
pub open spec fn eligible(source: CommitSource) -> bool {
    source is Empty || source is Message || source is Commit
}

/// Returns true exactly for the commit-source kinds that should trigger
/// generation; the caller skips the whole pipeline on false.
pub fn should_run(source: CommitSource) -> (r: bool)
    ensures
        r == eligible(source),
{
    match source {
        CommitSource::Empty | CommitSource::Message | CommitSource::Commit => true,
        _ => false,
    }
}

} // verus!
