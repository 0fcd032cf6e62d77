//! The summarization backend capability and the orchestrator that drives it
//! over all diff segments, assembling the per-segment fragments into one
//! commit-message body in segment order.

use vstd::prelude::*;

use crate::segment::seg_views;

verus! {

/// Failure of a summarization backend.
#[derive(Copy, Clone, PartialEq, Eq, Structural, Debug)]
pub enum BackendError {
    /// The backend could not be constructed (for example, a required
    /// credential is missing).
    ConstructionFailed,
    /// A summarization call failed.
    CallFailed,
}

/// Failure of the orchestration over all segments.
#[derive(Copy, Clone, PartialEq, Eq, Structural, Debug)]
pub enum SummarizeError {
    /// Some backend call failed; the whole operation is abandoned rather
    /// than emit an incomplete commit message.
    BackendFailed { cause: BackendError },
}

/// The abstract capability that turns a diff segment into a summary
/// fragment. A deterministic in-library stub implements it; a hosted
/// language-model provider may implement it outside the library.
pub trait SummarizationBackend: Sized {
    /// Whether a call on this segment succeeds.
    open spec fn succeeds(&self, segment: Seq<char>) -> bool {
        true
    }

    /// The fragment a successful call returns for this segment.
    open spec fn summary_of(&self, segment: Seq<char>) -> Seq<char> {
        Seq::empty()
    }

    /// Summarizes one segment.
    fn summarize(&self, segment: &str) -> (r: Result<String, BackendError>)
        ensures
            r is Ok <==> self.succeeds(segment@),
            r is Ok ==> r->Ok_0@ == self.summary_of(segment@),
            r is Err ==> r->Err_0 == BackendError::CallFailed,
    ;
}

/// Deterministic test backend: wraps each segment in a fixed prefix and
/// suffix and never fails.
pub struct StubBackend {
    pub prefix: String,
    pub suffix: String,
}

impl StubBackend {
    /// A stub that echoes each segment unchanged.
    pub fn new() -> (r: Self)
        ensures
            r.prefix@ == Seq::<char>::empty(),
            r.suffix@ == Seq::<char>::empty(),
    {
        StubBackend { prefix: String::new(), suffix: String::new() }
    }

    /// A stub that surrounds each segment with the given affixes.
    pub fn with_affixes(prefix: String, suffix: String) -> (r: Self)
        ensures
            r.prefix == prefix,
            r.suffix == suffix,
    {
        StubBackend { prefix, suffix }
    }
}

impl SummarizationBackend for StubBackend {
    open spec fn succeeds(&self, segment: Seq<char>) -> bool {
        true
    }

    open spec fn summary_of(&self, segment: Seq<char>) -> Seq<char> {
        self.prefix@ + segment + self.suffix@
    }

    fn summarize(&self, segment: &str) -> (r: Result<String, BackendError>) {
        let mut out = self.prefix.clone();
        out.append(segment);
        out.append(self.suffix.as_str());
        Ok(out)
    }
}

/// Fragments joined in order, one per line: a single `'\n'` stands between
/// adjacent fragments.
pub open spec fn join_fragments(frags: Seq<Seq<char>>) -> Seq<char>
    decreases frags.len(),
{
    if frags.len() == 0 {
        Seq::empty()
    } else if frags.len() == 1 {
        frags[0]
    } else {
        join_fragments(frags.drop_last()) + seq!['\n'] + frags.last()
    }
}

/// Appending one more fragment extends the joined text by a separating
/// newline (except before the first fragment) and the fragment itself.
pub proof fn lemma_join_fragments_push(frags: Seq<Seq<char>>, f: Seq<char>)
    ensures
        frags.len() == 0 ==> join_fragments(frags.push(f)) == f,
        frags.len() > 0 ==> join_fragments(frags.push(f)) == join_fragments(frags) + seq!['\n']
            + f,
{
    assert(frags.push(f).drop_last() =~= frags);
    assert(frags.push(f).last() == f);
    if frags.len() == 0 {
        assert(join_fragments(frags.push(f)) == frags.push(f)[0]);
    }
}

/// The fragment each segment maps to under backend `b`.
pub open spec fn fragments_of<B: SummarizationBackend>(b: B, segments: Seq<Seq<char>>) -> Seq<
    Seq<char>,
> {
    segments.map_values(|s: Seq<char>| b.summary_of(s))
}

/// Drives a backend over an ordered sequence of diff segments and assembles
/// the resulting fragments, in segment order, into one commit-message body.
pub struct SummarizationOrchestrator<B: SummarizationBackend> {
    pub backend: B,
}

impl<B: SummarizationBackend> SummarizationOrchestrator<B> {
    pub fn new(backend: B) -> (r: Self)
        ensures
            r.backend == backend,
    {
        SummarizationOrchestrator { backend }
    }

    /// Summarizes every segment and joins the fragments in segment order.
    ///
    /// Succeeds exactly when the backend succeeds on every segment; an empty
    /// segment sequence yields an empty message without any backend call;
    /// any single backend failure makes the whole call fail, with no partial
    /// result.
    pub fn get_commit_message(&self, segments: &Vec<String>) -> (r: Result<String, SummarizeError>)
        ensures
            r is Ok <==> (forall|i: int|
                0 <= i < segments@.len() ==> self.backend.succeeds(#[trigger] segments@[i]@)),
            r is Ok ==> r->Ok_0@ == join_fragments(
                fragments_of(self.backend, seg_views(segments@)),
            ),
            r is Err ==> r->Err_0 == (SummarizeError::BackendFailed {
                cause: BackendError::CallFailed,
            }),
            segments@.len() == 0 ==> r is Ok && r->Ok_0@ == Seq::<char>::empty(),
    {
        let mut body = String::new();
        let mut idx: usize = 0;
        while idx < segments.len()
            invariant
                idx <= segments@.len(),
                forall|i: int| 0 <= i < idx ==> self.backend.succeeds(#[trigger] segments@[i]@),
                body@ == join_fragments(
                    fragments_of(self.backend, seg_views(segments@)).take(idx as int),
                ),
            decreases segments@.len() - idx,
        {
            let frag = match self.backend.summarize(segments[idx].as_str()) {
                Ok(f) => f,
                Err(_) => {
                    return Err(SummarizeError::BackendFailed { cause: BackendError::CallFailed });
                },
            };
            proof {
                let all = fragments_of(self.backend, seg_views(segments@));
                assert(all.take(idx + 1).drop_last() =~= all.take(idx as int));
                assert(all.take(idx + 1).last() == frag@);
                lemma_join_fragments_push(all.take(idx as int), frag@);
                assert(all.take(idx + 1) =~= all.take(idx as int).push(frag@));
            }
            if idx > 0 {
                body.append("\n");
                proof {
                    reveal_strlit("\n");
                    assert("\n"@ =~= seq!['\n']);
                }
            }
            body.append(frag.as_str());
            idx = idx + 1;
        }
        proof {
            let all = fragments_of(self.backend, seg_views(segments@));
            assert(all.take(segments@.len() as int) =~= all);
        }
        Ok(body)
    }
}

} // verus!
