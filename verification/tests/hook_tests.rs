use gptcommit::hook::should_run;
use gptcommit::hook::CommitSource;

#[test]
fn gate_accepts_empty_message_and_commit() {
    assert!(should_run(CommitSource::Empty));
    assert!(should_run(CommitSource::Message));
    assert!(should_run(CommitSource::Commit));
}

#[test]
fn gate_rejects_template_merge_and_squash() {
    assert!(!should_run(CommitSource::Template));
    assert!(!should_run(CommitSource::Merge));
    assert!(!should_run(CommitSource::Squash));
}

#[test]
fn default_commit_source_is_empty() {
    assert_eq!(CommitSource::default(), CommitSource::Empty);
}
