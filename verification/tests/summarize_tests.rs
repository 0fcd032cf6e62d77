use std::cell::Cell;

use gptcommit::summarize::BackendError;
use gptcommit::summarize::StubBackend;
use gptcommit::summarize::SummarizationBackend;
use gptcommit::summarize::SummarizationOrchestrator;
use gptcommit::summarize::SummarizeError;

struct CountingStub {
    calls: Cell<usize>,
}

impl SummarizationBackend for CountingStub {
    fn summarize(&self, segment: &str) -> Result<String, BackendError> {
        self.calls.set(self.calls.get() + 1);
        Ok(format!("F({segment})"))
    }
}

struct FailOnSecond {
    calls: Cell<usize>,
}

impl SummarizationBackend for FailOnSecond {
    fn summarize(&self, segment: &str) -> Result<String, BackendError> {
        self.calls.set(self.calls.get() + 1);
        if self.calls.get() == 2 {
            Err(BackendError::CallFailed)
        } else {
            Ok(format!("F({segment})"))
        }
    }
}

#[test]
fn empty_segments_make_empty_message_without_backend_calls() {
    let stub = CountingStub { calls: Cell::new(0) };
    let orch = SummarizationOrchestrator::new(stub);
    let result = orch.get_commit_message(&Vec::new());
    assert_eq!(result, Ok(String::new()));
    assert_eq!(orch.backend.calls.get(), 0);
}

#[test]
fn fragments_keep_segment_order() {
    let stub = StubBackend::with_affixes("F(".to_string(), ")".to_string());
    let orch = SummarizationOrchestrator::new(stub);
    let segments = vec!["S1".to_string(), "S2".to_string(), "S3".to_string()];
    let result = orch.get_commit_message(&segments);
    assert_eq!(result, Ok("F(S1)\nF(S2)\nF(S3)".to_string()));
}

#[test]
fn one_backend_failure_fails_the_whole_call() {
    let stub = FailOnSecond { calls: Cell::new(0) };
    let orch = SummarizationOrchestrator::new(stub);
    let segments = vec!["a".to_string(), "b".to_string(), "c".to_string()];
    let result = orch.get_commit_message(&segments);
    assert_eq!(
        result,
        Err(SummarizeError::BackendFailed { cause: BackendError::CallFailed })
    );
}

#[test]
fn identity_stub_joins_segments_with_newlines() {
    let orch = SummarizationOrchestrator::new(StubBackend::new());
    let segments = vec!["one".to_string(), "two".to_string()];
    let result = orch.get_commit_message(&segments);
    assert_eq!(result, Ok("one\ntwo".to_string()));
}

#[test]
fn stub_backend_wraps_one_segment() {
    let stub = StubBackend::with_affixes("<".to_string(), ">".to_string());
    assert_eq!(stub.summarize("body"), Ok("<body>".to_string()));
}
