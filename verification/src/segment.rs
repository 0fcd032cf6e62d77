//! Splits raw unified-diff text into an ordered sequence of per-file
//! segments. Every occurrence of the newline-prefixed marker `"\ndiff --git "`
//! starts a new segment and stays at that segment's front, so concatenating
//! the segments in order reproduces the input exactly.

use vstd::prelude::*;

verus! {

/// The twelve characters of the segment marker, `"\ndiff --git "`.
pub open spec fn diff_marker() -> Seq<char> {
    seq!['\n', 'd', 'i', 'f', 'f', ' ', '-', '-', 'g', 'i', 't', ' ']
}

/// The marker occurs in `s` starting at position `i`.
pub open spec fn marker_at(s: Seq<char>, i: int) -> bool {
    0 <= i && i + 12 <= s.len() && s.subrange(i, i + 12) == diff_marker()
}

/// `s` begins with the marker.
pub open spec fn starts_with_marker(s: Seq<char>) -> bool {
    marker_at(s, 0)
}

/// The views of a sequence of owned strings.
pub open spec fn seg_views(segs: Seq<String>) -> Seq<Seq<char>> {
    segs.map_values(|s: String| s@)
}

/// Concatenation of a sequence of character sequences, in order.
pub open spec fn concat_all(segs: Seq<Seq<char>>) -> Seq<char>
    decreases segs.len(),
{
    if segs.len() == 0 {
        Seq::empty()
    } else {
        concat_all(segs.drop_last()) + segs.last()
    }
}

/// Appending one more piece extends the concatenation by that piece.
pub proof fn lemma_concat_all_push(segs: Seq<Seq<char>>, s: Seq<char>)
    ensures
        concat_all(segs.push(s)) == concat_all(segs) + s,
{
    assert(segs.push(s).drop_last() =~= segs);
    assert(segs.push(s).last() == s);
}

/// Two marker occurrences are at least a marker's length apart: the marker
/// starts with `'\n'` and contains no later `'\n'`, so occurrences cannot
/// overlap.
pub proof fn lemma_marker_disjoint(s: Seq<char>, a: int, b: int)
    requires
        marker_at(s, a),
        marker_at(s, b),
        a < b,
    ensures
        b >= a + 12,
{
    if b < a + 12 {
        assert(s.subrange(a, a + 12)[b - a] == s[b]);
        assert(s.subrange(b, b + 12)[0] == s[b]);
        assert(diff_marker()[b - a] != '\n');
    }
}

/// Checks whether the marker occurs in `s` at character position `i`;
/// `n` is the character length of `s`.
fn marker_match_at(s: &str, i: usize, n: usize) -> (r: bool)
    requires
        n == s@.len(),
        i <= n,
    ensures
        r == marker_at(s@, i as int),
{
    if n - i < 12 {
        return false;
    }
    let r = s.get_char(i) == '\n' && s.get_char(i + 1) == 'd' && s.get_char(i + 2) == 'i'
        && s.get_char(i + 3) == 'f' && s.get_char(i + 4) == 'f' && s.get_char(i + 5) == ' '
        && s.get_char(i + 6) == '-' && s.get_char(i + 7) == '-' && s.get_char(i + 8) == 'g'
        && s.get_char(i + 9) == 'i' && s.get_char(i + 10) == 't' && s.get_char(i + 11) == ' ';
    proof {
        if r {
            assert(s@.subrange(i as int, i + 12) =~= diff_marker());
        } else {
            if s@.subrange(i as int, i + 12) == diff_marker() {
                assert forall|j: int| 0 <= j < 12 implies s@[i + j] == #[trigger] diff_marker()[j] by {
                    assert(s@.subrange(i as int, i + 12)[j] == s@[i + j]);
                }
                assert(false);
            }
        }
    }
    r
}

/// Splits diff text into per-file segments at each occurrence of the marker.
///
/// The output always holds at least one segment; the segments concatenate
/// back to the input; every segment after the first begins with the marker;
/// the marker never occurs anywhere inside a segment except at its front;
/// and only empty input yields an empty segment.
pub fn segment(diff: &str) -> (r: Vec<String>)
    ensures
        r@.len() >= 1,
        concat_all(seg_views(r@)) == diff@,
        forall|i: int| 1 <= i < r@.len() ==> starts_with_marker(#[trigger] r@[i]@),
        forall|i: int| 0 <= i < r@.len() ==> (#[trigger] r@[i]@).len() > 0 || diff@.len() == 0,
        forall|i: int, j: int| #![trigger marker_at(r@[i]@, j)]
            0 <= i < r@.len() && 1 <= j ==> !marker_at(r@[i]@, j),
        diff@.len() == 0 ==> r@.len() == 1,
{
    let ghost dv: Seq<char> = diff@;
    let n: usize = diff.unicode_len();
    let mut segs: Vec<String> = Vec::new();
    if n == 0 {
        segs.push(String::new());
        proof {
            let e = Seq::<char>::empty();
            assert(seg_views(segs@) =~= Seq::<Seq<char>>::empty().push(e));
            lemma_concat_all_push(Seq::<Seq<char>>::empty(), e);
            assert(concat_all(seg_views(segs@)) =~= dv);
        }
        return segs;
    }
    let mut start: usize = 0;
    let mut i: usize = 1;
    while i < n
        invariant
            dv == diff@,
            n == dv.len(),
            1 <= n,
            1 <= i <= n,
            start < i,
            segs@.len() == 0 ==> start == 0,
            segs@.len() >= 1 ==> marker_at(dv, start as int),
            concat_all(seg_views(segs@)) == dv.subrange(0, start as int),
            forall|k: int| 1 <= k < segs@.len() ==> starts_with_marker(#[trigger] segs@[k]@),
            forall|k: int| 0 <= k < segs@.len() ==> (#[trigger] segs@[k]@).len() > 0,
            forall|k: int, j: int| #![trigger marker_at(segs@[k]@, j)]
                0 <= k < segs@.len() && 1 <= j ==> !marker_at(segs@[k]@, j),
            forall|k: int| start < k < i ==> !marker_at(dv, k),
        decreases n - i,
    {
        if marker_match_at(diff, i, n) {
            let piece = diff.substring_char(start, i).to_owned();
            proof {
                if segs@.len() >= 1 {
                    lemma_marker_disjoint(dv, start as int, i as int);
                }
                lemma_push_keeps_invariants(dv, seg_views(segs@), piece@, start as int, i as int);
                assert(seg_views(segs@.push(piece)) =~= seg_views(segs@).push(piece@));
                lemma_concat_all_push(seg_views(segs@), piece@);
                assert(concat_all(seg_views(segs@.push(piece))) =~= dv.subrange(0, i as int));
            }
            segs.push(piece);
            start = i;
        }
        i = i + 1;
    }
    let piece = diff.substring_char(start, n).to_owned();
    proof {
        lemma_push_keeps_invariants(dv, seg_views(segs@), piece@, start as int, n as int);
        assert(seg_views(segs@.push(piece)) =~= seg_views(segs@).push(piece@));
        lemma_concat_all_push(seg_views(segs@), piece@);
        assert(concat_all(seg_views(segs@.push(piece))) =~= dv);
    }
    segs.push(piece);
    segs
}

/// The piece `dv[from..to]` that the segmenter is about to emit has no marker
/// occurrence at any position past its front, provided the scan found no
/// marker strictly between `from` and `to`; and if the piece begins at a
/// marker occurrence in `dv`, the piece itself begins with the marker.
proof fn lemma_push_keeps_invariants(
    dv: Seq<char>,
    prior: Seq<Seq<char>>,
    piece: Seq<char>,
    from: int,
    to: int,
)
    requires
        0 <= from < to <= dv.len(),
        piece == dv.subrange(from, to),
        forall|k: int| from < k < to ==> !marker_at(dv, k),
    ensures
        forall|j: int| #![trigger marker_at(piece, j)] 1 <= j ==> !marker_at(piece, j),
        marker_at(dv, from) && to >= from + 12 ==> starts_with_marker(piece),
{
    assert forall|j: int| 1 <= j implies !marker_at(piece, j) by {
        if marker_at(piece, j) {
            assert(piece.subrange(j, j + 12) =~= dv.subrange(from + j, from + j + 12));
            assert(marker_at(dv, from + j));
        }
    }
    if marker_at(dv, from) && to >= from + 12 {
        assert(piece.subrange(0, 12) =~= dv.subrange(from, from + 12));
    }
}

} // verus!
