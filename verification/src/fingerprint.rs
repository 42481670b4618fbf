//! Exact content fingerprints for change detection.
//!
//! The pane must tell "the content changed" apart from "a refresh happened".
//! The check has to be exact — a false match would silently swallow new
//! content, a false mismatch would reset the scroll position on every tick —
//! so the fingerprint retains the full content and its equality coincides
//! with content equality, including classification tags and hunk boundaries.
//! A dedicated sentinel value matches no diff at all, so a cleared pane always
//! treats the next pushed diff as a change.

use vstd::prelude::*;

use crate::diff::{Diff, DiffLine, DiffLineView, Hunk};

verus! {

/// Fingerprint of a diff's content, used purely as an equality witness.
pub enum ContentHash {
    /// Matches no diff content, not even the empty diff.
    Sentinel,
    /// The full content of some diff: hunk structure, line text and tags.
    Content(Diff),
}

impl View for ContentHash {
    type V = Option<Seq<Seq<DiffLineView>>>;

    open spec fn view(&self) -> Option<Seq<Seq<DiffLineView>>> {
        match self {
            ContentHash::Sentinel => None,
            ContentHash::Content(d) => Some(d@),
        }
    }
}

/// True iff the two lines carry the same text and the same classification.
pub fn line_content_eq(a: &DiffLine, b: &DiffLine) -> (r: bool)
    ensures
        r == (a@ == b@),
{
    a.content == b.content && a.line_type == b.line_type
}

/// True iff the two hunks hold the same lines in the same order.
pub fn hunk_content_eq(a: &Hunk, b: &Hunk) -> (r: bool)
    ensures
        r == (a@ == b@),
{
    proof {
        assert(a@.len() == a.0@.len());
        assert(b@.len() == b.0@.len());
    }
    if a.0.len() != b.0.len() {
        return false;
    }
    let n = a.0.len();
    let mut i: usize = 0;
    while i < n
        invariant
            n == a.0.len(),
            n == b.0.len(),
            i <= n,
            forall|j: int| 0 <= j < i ==> #[trigger] a@[j] == b@[j],
        decreases n - i,
    {
        proof {
            assert(a@[i as int] == a.0@[i as int]@);
            assert(b@[i as int] == b.0@[i as int]@);
        }
        if !line_content_eq(&a.0[i], &b.0[i]) {
            return false;
        }
        i = i + 1;
    }
    proof {
        assert(a@ =~= b@);
    }
    true
}

/// True iff the two diffs hold the same hunks with the same lines.
pub fn diff_content_eq(a: &Diff, b: &Diff) -> (r: bool)
    ensures
        r == (a@ == b@),
{
    proof {
        assert(a@.len() == a.0@.len());
        assert(b@.len() == b.0@.len());
    }
    if a.0.len() != b.0.len() {
        return false;
    }
    let n = a.0.len();
    let mut i: usize = 0;
    while i < n
        invariant
            n == a.0.len(),
            n == b.0.len(),
            i <= n,
            forall|j: int| 0 <= j < i ==> #[trigger] a@[j] == b@[j],
        decreases n - i,
    {
        proof {
            assert(a@[i as int] == a.0@[i as int]@);
            assert(b@[i as int] == b.0@[i as int]@);
        }
        if !hunk_content_eq(&a.0[i], &b.0[i]) {
            return false;
        }
        i = i + 1;
    }
    proof {
        assert(a@ =~~= b@);
    }
    true
}

/// Computes the fingerprint of a diff. Never returns the sentinel, so a
/// freshly computed fingerprint always records real content.
pub fn hash(diff: &Diff) -> (h: ContentHash)
    ensures
        h@ == Some(diff@),
{
    ContentHash::Content(diff.clone())
}

/// True iff the fingerprint `h` records exactly the content of `diff`.
/// The sentinel matches nothing.
pub fn hash_matches(h: &ContentHash, diff: &Diff) -> (r: bool)
    ensures
        r == (h@ == Some(diff@)),
{
    match h {
        ContentHash::Sentinel => false,
        ContentHash::Content(d) => diff_content_eq(d, diff),
    }
}

} // verus!
