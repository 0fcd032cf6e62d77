use gptcommit::segment::segment;

#[test]
fn empty_input_yields_single_empty_segment() {
    let segs = segment("");
    assert_eq!(segs.len(), 1);
    assert_eq!(segs[0], "");
}

#[test]
fn input_without_marker_is_one_segment() {
    let text = "just some text\nwith lines\n";
    let segs = segment(text);
    assert_eq!(segs.len(), 1);
    assert_eq!(segs[0], text);
}

#[test]
fn two_file_diff_splits_into_two_segments() {
    let text = "diff --git a/a.txt b/a.txt\n+hello\ndiff --git a/b.txt b/b.txt\n+world\n";
    let segs = segment(text);
    assert_eq!(segs.len(), 2);
    assert_eq!(segs[0], "diff --git a/a.txt b/a.txt\n+hello");
    assert_eq!(segs[1], "\ndiff --git a/b.txt b/b.txt\n+world\n");
}

#[test]
fn concatenation_reproduces_input() {
    let text = "header junk\ndiff --git a/x b/x\n-a\n+b\ndiff --git a/y b/y\n+c\n";
    let segs = segment(text);
    let rejoined: String = segs.concat();
    assert_eq!(rejoined, text);
}

#[test]
fn later_segments_start_with_marker() {
    let text = "diff --git a/x b/x\n-a\ndiff --git a/y b/y\n+c\ndiff --git a/z b/z\n+d\n";
    let segs = segment(text);
    assert_eq!(segs.len(), 3);
    for seg in segs.iter().skip(1) {
        assert!(seg.starts_with("\ndiff --git "));
    }
}

#[test]
fn no_boundary_inside_line_without_marker() {
    // "diff --git" appears mid-line and without the trailing space: no split.
    let text = "notes about diff --git here\nand diff --gitX\n";
    let segs = segment(text);
    assert_eq!(segs.len(), 1);
    assert_eq!(segs[0], text);
}

#[test]
fn marker_at_offset_zero_starts_first_segment() {
    let text = "\ndiff --git a/x b/x\n+a\n";
    let segs = segment(text);
    assert_eq!(segs.len(), 1);
    assert_eq!(segs[0], text);
}
