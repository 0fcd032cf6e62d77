//! Merges the generated commit-message body with any pre-existing content of
//! the commit-message file. The caller reads the file, hands its content
//! here, and writes the merged result back in one overwrite.

use vstd::prelude::*;

verus! {

/// Failure to read or write the commit-message file; the caller doing that
/// filesystem work reports it through this type.
#[derive(Copy, Clone, PartialEq, Eq, Structural, Debug)]
pub enum WriteError {
    IOFailure,
}

/// The merged text: non-empty existing content first, one blank line, then
/// the generated text; with no existing content, the generated text alone.
pub open spec fn merged(existing: Seq<char>, generated: Seq<char>) -> Seq<char> {
    if existing.len() == 0 {
        generated
    } else {
        existing + seq!['\n', '\n'] + generated
    }
}

/// Builds the final commit-message text from the file's prior content
/// (empty when the file is absent or empty) and the generated body.
pub fn merge_message(existing: &str, generated: &str) -> (r: String)
    ensures
        r@ == merged(existing@, generated@),
{
    if existing.is_empty() {
        return generated.to_owned();
    }
    let mut out = existing.to_owned();
    out.append("\n\n");
    out.append(generated);
    proof {
        reveal_strlit("\n\n");
        assert("\n\n"@ =~= seq!['\n', '\n']);
    }
    out
}

} // verus!
