//! The diff data model: classified lines, hunks, and whole diffs.

use vstd::prelude::*;

verus! {

/// Classification of one line of diff output. Anything that is not a header,
/// an addition or a deletion counts as plain context.
#[derive(Clone, Copy, PartialEq, Eq, Structural, Debug)]
pub enum DiffLineType {
    Header,
    Add,
    Delete,
    Context,
}

/// One line of diff output: its text and its classification.
#[derive(Debug)]
pub struct DiffLine {
    pub content: String,
    pub line_type: DiffLineType,
}

/// Mathematical value of a [`DiffLine`]: the character sequence together with
/// the classification tag.
#[verifier::ext_equal]
pub struct DiffLineView {
    pub content: Seq<char>,
    pub line_type: DiffLineType,
}

impl View for DiffLine {
    type V = DiffLineView;

    open spec fn view(&self) -> DiffLineView {
        DiffLineView { content: self.content@, line_type: self.line_type }
    }
}

impl Clone for DiffLine {
    fn clone(&self) -> (r: Self)
        ensures
            r@ == self@,
    {
        DiffLine { content: self.content.clone(), line_type: self.line_type }
    }
}

/// A contiguous block of classified lines belonging to one changed region.
pub struct Hunk(pub Vec<DiffLine>);

impl View for Hunk {
    type V = Seq<DiffLineView>;

    open spec fn view(&self) -> Seq<DiffLineView> {
        self.0@.map_values(|l: DiffLine| l@)
    }
}

impl Clone for Hunk {
    fn clone(&self) -> (r: Self)
        ensures
            r@ == self@,
    {
        let mut lines: Vec<DiffLine> = Vec::new();
        let mut i: usize = 0;
        while i < self.0.len()
            invariant
                i <= self.0.len(),
                lines@.len() == i,
                forall|j: int| 0 <= j < i ==> #[trigger] lines@[j]@ == self.0@[j]@,
            decreases self.0.len() - i,
        {
            lines.push(self.0[i].clone());
            i = i + 1;
        }
        let r = Hunk(lines);
        proof {
            assert(r@ =~= self@);
        }
        r
    }
}

/// An ordered sequence of hunks: the whole diff of one target.
pub struct Diff(pub Vec<Hunk>);

impl View for Diff {
    type V = Seq<Seq<DiffLineView>>;

    open spec fn view(&self) -> Seq<Seq<DiffLineView>> {
        self.0@.map_values(|h: Hunk| h@)
    }
}

impl Clone for Diff {
    fn clone(&self) -> (r: Self)
        ensures
            r@ == self@,
    {
        let mut hunks: Vec<Hunk> = Vec::new();
        let mut i: usize = 0;
        while i < self.0.len()
            invariant
                i <= self.0.len(),
                hunks@.len() == i,
                forall|j: int| 0 <= j < i ==> #[trigger] hunks@[j]@ == self.0@[j]@,
            decreases self.0.len() - i,
        {
            hunks.push(self.0[i].clone());
            i = i + 1;
        }
        let r = Diff(hunks);
        proof {
            assert(r@ =~~= self@);
        }
        r
    }
}

impl Diff {
    /// A diff with no hunks at all.
    pub fn empty() -> (d: Diff)
        ensures
            d@ == Seq::<Seq<DiffLineView>>::empty(),
    {
        let d = Diff(Vec::new());
        proof {
            assert(d@ =~~= Seq::<Seq<DiffLineView>>::empty());
        }
        d
    }
}

impl Default for Diff {
    fn default() -> (d: Diff)
        ensures
            d@ == Seq::<Seq<DiffLineView>>::empty(),
    {
        Diff::empty()
    }
}

/// The lines of a diff in display order: hunks concatenated in order, lines
/// within a hunk in order. A hunk with no lines contributes nothing.
pub open spec fn flat_lines(d: Seq<Seq<DiffLineView>>) -> Seq<DiffLineView> {
    d.flatten()
}

} // verus!
