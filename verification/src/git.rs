//! Diff extraction from repository state. The repository operations come
//! from the `git2` crate behind trusted declarations; the rendering of the
//! diff lines into unified-patch text, with its origin-marker
//! normalization, is verified, as is the parsing of a hooks-path lookup's
//! output.

use vstd::prelude::*;

verus! {

/// One rendered diff line: its origin marker character and its text.
pub struct DiffLine {
    pub origin: char,
    pub content: String,
}

/// Failure of diff extraction.
#[derive(Copy, Clone, PartialEq, Eq, Structural, Debug)]
pub enum ExtractError {
    /// No repository was found at the working directory or an ancestor.
    NoRepository,
    /// Tree resolution or diff computation failed.
    GitOperationFailed,
}

/// The file-header, hunk-header and binary-indicator origin markers are
/// rendered with a blank prefix; every other origin marker is kept as is.
pub open spec fn normalize_origin(c: char) -> char {
    if c == 'H' || c == 'F' || c == 'B' {
        ' '
    } else {
        c
    }
}

/// A line's rendering: its normalized origin marker, then its content.
pub open spec fn render_line(line: DiffLine) -> Seq<char> {
    seq![normalize_origin(line.origin)] + line.content@
}

/// The whole patch text: every line's rendering, in order.
pub open spec fn render_patch_spec(lines: Seq<DiffLine>) -> Seq<char>
    decreases lines.len(),
{
    if lines.len() == 0 {
        Seq::empty()
    } else {
        render_patch_spec(lines.drop_last()) + render_line(lines.last())
    }
}

/// Executable form of `normalize_origin`.
fn normalized_origin(c: char) -> (r: char)
    ensures
        r == normalize_origin(c),
{
    if c == 'H' || c == 'F' || c == 'B' {
        ' '
    } else {
        c
    }
}

/// Relies on String::push: appends exactly the one character.
#[verifier::external_body]
fn push_char(s: &mut String, c: char)
    ensures
        final(s)@ == old(s)@ + seq![c],
{
    s.push(c);
}

/// Renders diff lines as unified-patch text with normalized origin markers.
pub fn render_patch(lines: &Vec<DiffLine>) -> (r: String)
    ensures
        r@ == render_patch_spec(lines@),
{
    let mut out = String::new();
    let mut i: usize = 0;
    while i < lines.len()
        invariant
            i <= lines@.len(),
            out@ == render_patch_spec(lines@.take(i as int)),
        decreases lines@.len() - i,
    {
        let line = &lines[i];
        push_char(&mut out, normalized_origin(line.origin));
        out.append(line.content.as_str());
        proof {
            assert(lines@.take(i + 1).drop_last() =~= lines@.take(i as int));
            assert(lines@.take(i + 1).last() == lines@[i as int]);
        }
        i = i + 1;
    }
    proof {
        assert(lines@.take(lines@.len() as int) =~= lines@);
    }
    out
}

#[verifier::external_type_specification]
#[verifier::external_body]
pub struct ExRepository(git2::Repository);

#[verifier::external_type_specification]
#[verifier::external_body]
pub struct ExTree<'a>(git2::Tree<'a>);

#[verifier::external_type_specification]
#[verifier::external_body]
pub struct ExDiff<'a>(git2::Diff<'a>);

#[verifier::external_type_specification]
#[verifier::external_body]
pub struct ExDiffOptions(git2::DiffOptions);

#[verifier::external_type_specification]
#[verifier::external_body]
pub struct ExGitError(git2::Error);

/// Relies on git2::Repository::open_from_env: opens the repository that the
/// working directory and environment name, failing when none is found.
#[verifier::external_body]
fn open_repo_from_env() -> (r: Result<git2::Repository, git2::Error>) {
    git2::Repository::open_from_env()
}

/// Relies on git2::Repository::head and git2::Reference::peel_to_tree: the
/// tree of the commit that HEAD points at.
#[verifier::external_body]
fn head_tree(repo: &git2::Repository) -> (r: Result<git2::Tree<'_>, git2::Error>) {
    match repo.head() {
        Ok(head) => head.peel_to_tree(),
        Err(e) => Err(e),
    }
}

/// Relies on git2::DiffOptions::new, ignore_whitespace and minimal: diff
/// options that ignore whitespace differences and prefer minimal hunks.
#[verifier::external_body]
fn diff_options_ignore_ws_minimal() -> (r: git2::DiffOptions) {
    let mut opts = git2::DiffOptions::new();
    opts.ignore_whitespace(true);
    opts.minimal(true);
    opts
}

/// Relies on git2::Repository::diff_tree_to_index: the diff between the
/// given tree and the repository's staged index.
#[verifier::external_body]
fn diff_tree_to_index<'r>(
    repo: &'r git2::Repository,
    tree: &git2::Tree<'_>,
    opts: &mut git2::DiffOptions,
) -> (r: Result<git2::Diff<'r>, git2::Error>) {
    repo.diff_tree_to_index(Some(tree), None, Some(opts))
}

/// Relies on git2::Diff::print with patch formatting: the callback sees each
/// output line once, in order, with its origin marker and its content; the
/// callback only converts each line and hands it back.
#[verifier::external_body]
fn collect_diff_lines(diff: &git2::Diff<'_>) -> (r: Result<Vec<DiffLine>, git2::Error>) {
    let mut lines: Vec<DiffLine> = Vec::new();
    let outcome = diff.print(git2::DiffFormat::Patch, |_delta, _hunk, line| {
        let content = String::from_utf8_lossy(line.content()).into_owned();
        lines.push(DiffLine { origin: line.origin(), content });
        true
    });
    match outcome {
        Ok(()) => Ok(lines),
        Err(e) => Err(e),
    }
}

/// Extracts the unified diff between the last commit's tree and the staged
/// index, with whitespace ignored and minimal hunks, rendered as patch text
/// whose header lines carry a blank origin prefix.
pub fn get_diffs() -> (r: Result<String, ExtractError>)
    ensures
        r is Ok ==> exists|lines: Seq<DiffLine>| r->Ok_0@ == render_patch_spec(lines),
{
    let repo = match open_repo_from_env() {
        Ok(repo) => repo,
        Err(_) => {
            return Err(ExtractError::NoRepository);
        },
    };
    let tree = match head_tree(&repo) {
        Ok(tree) => tree,
        Err(_) => {
            return Err(ExtractError::GitOperationFailed);
        },
    };
    let mut opts = diff_options_ignore_ws_minimal();
    let diff = match diff_tree_to_index(&repo, &tree, &mut opts) {
        Ok(diff) => diff,
        Err(_) => {
            return Err(ExtractError::GitOperationFailed);
        },
    };
    let lines = match collect_diff_lines(&diff) {
        Ok(lines) => lines,
        Err(_) => {
            return Err(ExtractError::GitOperationFailed);
        },
    };
    let patch = render_patch(&lines);
    proof {
        assert(patch@ == render_patch_spec(lines@));
    }
    Ok(patch)
}

/// The characters of the last line of `t`: everything after the nearest
/// `'\n'`, scanning back from the end.
pub open spec fn tail_after_newline(t: Seq<char>) -> Seq<char>
    decreases t.len(),
{
    if t.len() == 0 {
        t
    } else if t.last() == '\n' {
        Seq::empty()
    } else {
        tail_after_newline(t.drop_last()).push(t.last())
    }
}

/// The last line of `s` as a line-based reader sees it: one trailing `'\n'`
/// does not start a new line, and a `'\r'` that ended the line is dropped.
pub open spec fn last_line_spec(s: Seq<char>) -> Seq<char> {
    let t = if s.len() > 0 && s.last() == '\n' {
        s.drop_last()
    } else {
        s
    };
    let l = tail_after_newline(t);
    if l.len() > 0 && l.last() == '\r' {
        l.drop_last()
    } else {
        l
    }
}

/// When no `'\n'` stands in `t` at or after position `k` and `k` is the
/// start of `t` or preceded by `'\n'`, the last line of `t` is `t[k..]`.
proof fn lemma_tail_after_newline(t: Seq<char>, k: int)
    requires
        0 <= k <= t.len(),
        forall|j: int| k <= j < t.len() ==> t[j] != '\n',
        k == 0 || t[k - 1] == '\n',
    ensures
        tail_after_newline(t) == t.subrange(k, t.len() as int),
    decreases t.len(),
{
    if t.len() == 0 {
        assert(t.subrange(0, 0) =~= t);
    } else if t.len() == k {
        assert(t.last() == '\n');
        assert(t.subrange(k, t.len() as int) =~= Seq::<char>::empty());
    } else {
        lemma_tail_after_newline(t.drop_last(), k);
        assert(t.drop_last().subrange(k, t.len() - 1).push(t.last()) =~= t.subrange(
            k,
            t.len() as int,
        ));
    }
}

/// The repository's hooks path as reported on the last line of the lookup
/// command's standard output; nothing for empty output (on which the
/// reader has no line to take).
pub fn hooks_path_from_output(stdout: &str) -> (r: Option<String>)
    ensures
        r is Some <==> stdout@.len() > 0,
        r is Some ==> r->0@ == last_line_spec(stdout@),
{
    let ghost dv: Seq<char> = stdout@;
    let n: usize = stdout.unicode_len();
    if n == 0 {
        return None;
    }
    let end: usize = if stdout.get_char(n - 1) == '\n' {
        n - 1
    } else {
        n
    };
    let mut k: usize = end;
    while k > 0 && stdout.get_char(k - 1) != '\n'
        invariant
            dv == stdout@,
            n == dv.len(),
            end <= n,
            k <= end,
            forall|j: int| k <= j < end ==> dv[j] != '\n',
        decreases k,
    {
        k = k - 1;
    }
    let stop: usize = if end > k && stdout.get_char(end - 1) == '\r' {
        end - 1
    } else {
        end
    };
    let line = stdout.substring_char(k, stop).to_owned();
    proof {
        let t = dv.subrange(0, end as int);
        if n > 0 && dv.last() == '\n' {
            assert(t =~= dv.drop_last());
        } else {
            assert(t =~= dv);
        }
        assert(forall|j: int| k <= j < t.len() ==> t[j] == dv[j]);
        lemma_tail_after_newline(t, k as int);
        assert(t.subrange(k as int, end as int) =~= dv.subrange(k as int, end as int));
        let l = dv.subrange(k as int, end as int);
        if l.len() > 0 && l.last() == '\r' {
            assert(l.drop_last() =~= dv.subrange(k as int, stop as int));
        }
    }
    Some(line)
}

} // verus!
