//! The render transform: from the pane's state to a styled, scroll-windowed
//! list of lines plus the frame decoration, ready for a terminal paint
//! surface to draw.

use vstd::prelude::*;

use crate::component::DiffComponent;
use crate::diff::{flat_lines, Diff, DiffLine, DiffLineType, DiffLineView};

verus! {

/// The colors the pane uses. `Reset` stands for the terminal's default.
#[derive(Clone, Copy, PartialEq, Eq, Structural, Debug)]
pub enum Color {
    Reset,
    Red,
    Green,
    Black,
    Gray,
}

/// Style of one span of text: foreground, background, emphasis.
#[derive(Clone, Copy, PartialEq, Eq, Structural, Debug)]
pub struct LineStyle {
    pub fg: Color,
    pub bg: Color,
    pub bold: bool,
}

/// A wholly unstyled span.
pub open spec fn plain_style() -> LineStyle {
    LineStyle { fg: Color::Reset, bg: Color::Reset, bold: false }
}

/// The style each line classification renders with: deletions red on a dark
/// background, additions green on a dark background, headers dark on light
/// and bold, context unstyled.
pub open spec fn style_of(t: DiffLineType) -> LineStyle {
    match t {
        DiffLineType::Delete => LineStyle { fg: Color::Red, bg: Color::Black, bold: false },
        DiffLineType::Add => LineStyle { fg: Color::Green, bg: Color::Black, bold: false },
        DiffLineType::Header => LineStyle { fg: Color::Black, bg: Color::Gray, bold: true },
        DiffLineType::Context => plain_style(),
    }
}

/// Computes the style of one line classification.
pub fn style_for(t: DiffLineType) -> (s: LineStyle)
    ensures
        s == style_of(t),
{
    match t {
        DiffLineType::Delete => LineStyle { fg: Color::Red, bg: Color::Black, bold: false },
        DiffLineType::Add => LineStyle { fg: Color::Green, bg: Color::Black, bold: false },
        DiffLineType::Header => LineStyle { fg: Color::Black, bg: Color::Gray, bold: true },
        DiffLineType::Context => LineStyle { fg: Color::Reset, bg: Color::Reset, bold: false },
    }
}

/// The styling map is injective: inspecting the painted style of a line
/// recovers its classification deterministically, for every classification.
pub proof fn lemma_style_recovers_classification(t1: DiffLineType, t2: DiffLineType)
    ensures
        style_of(t1) == style_of(t2) ==> t1 == t2,
{
}

/// One rendered line: its (possibly clipped) text and its style.
#[derive(Debug)]
pub struct StyledLine {
    pub content: String,
    pub style: LineStyle,
}

/// Mathematical value of a [`StyledLine`].
#[verifier::ext_equal]
pub struct StyledLineView {
    pub content: Seq<char>,
    pub style: LineStyle,
}

impl View for StyledLine {
    type V = StyledLineView;

    open spec fn view(&self) -> StyledLineView {
        StyledLineView { content: self.content@, style: self.style }
    }
}

/// A character sequence cut down to at most `width` characters.
pub open spec fn clip(s: Seq<char>, width: nat) -> Seq<char> {
    if s.len() <= width {
        s
    } else {
        s.take(width as int)
    }
}

/// How one diff line renders inside a region `width` characters wide.
pub open spec fn rendered_line(l: DiffLineView, width: nat) -> StyledLineView {
    StyledLineView { content: clip(l.content, width), style: style_of(l.line_type) }
}

/// How many lines are visible: of `total` content lines, the first `scroll`
/// are skipped and at most `height` of the rest are shown. An offset past the
/// end leaves the view empty.
pub open spec fn visible_count(total: nat, scroll: nat, height: nat) -> nat {
    if scroll >= total {
        0
    } else if total - scroll <= height {
        (total - scroll) as nat
    } else {
        height
    }
}

/// Style of the surrounding frame: a colored border while the pane is
/// focused, plain otherwise.
pub open spec fn border_style_of(focused: bool) -> LineStyle {
    if focused {
        LineStyle { fg: Color::Green, bg: Color::Reset, bold: false }
    } else {
        plain_style()
    }
}

/// Style of the frame's title: bold while the pane is focused, plain
/// otherwise.
pub open spec fn title_style_of(focused: bool) -> LineStyle {
    if focused {
        LineStyle { fg: Color::Reset, bg: Color::Reset, bold: true }
    } else {
        plain_style()
    }
}

/// The title the frame carries.
pub open spec fn title_text() -> Seq<char> {
    "Diff: "@
}

/// The title the frame carries.
pub fn title() -> (t: &'static str)
    ensures
        t@ == title_text(),
{
    "Diff: "
}

/// Everything one paint cycle needs: the visible styled lines and the frame
/// decoration.
#[derive(Debug)]
pub struct Rendering {
    pub lines: Vec<StyledLine>,
    pub border: LineStyle,
    pub title_style: LineStyle,
}

/// All lines of the diff in display order: hunks concatenated in order. A
/// hunk with no lines contributes nothing and does not disturb the rest.
pub fn flatten_lines(d: &Diff) -> (v: Vec<DiffLine>)
    ensures
        v@.len() == flat_lines(d@).len(),
        forall|i: int| 0 <= i < v@.len() ==> (#[trigger] v@[i])@ == flat_lines(d@)[i],
{
    let mut v: Vec<DiffLine> = Vec::new();
    let mut i: usize = 0;
    while i < d.0.len()
        invariant
            i <= d.0.len(),
            v@.map_values(|l: DiffLine| l@) == d@.take(i as int).flatten(),
        decreases d.0.len() - i,
    {
        let ghost prev_outer = v@.map_values(|l: DiffLine| l@);
        let hunk: &crate::diff::Hunk = &d.0[i];
        proof {
            assert(hunk@ == d@[i as int]);
        }
        let mut j: usize = 0;
        while j < hunk.0.len()
            invariant
                i < d.0.len(),
                j <= hunk.0.len(),
                hunk@ == d@[i as int],
                v@.map_values(|l: DiffLine| l@) == d@.take(i as int).flatten() + d@[i as int].take(
                    j as int,
                ),
            decreases hunk.0.len() - j,
        {
            let ghost prev = v@.map_values(|l: DiffLine| l@);
            let line = hunk.0[j].clone();
            proof {
                assert(line@ == hunk@[j as int]);
            }
            v.push(line);
            proof {
                assert(v@.map_values(|l: DiffLine| l@) =~= prev.push(hunk@[j as int]));
                assert(d@[i as int].take(j as int).push(hunk@[j as int]) =~= d@[i as int].take(
                    j + 1,
                ));
                assert(v@.map_values(|l: DiffLine| l@) =~= d@.take(i as int).flatten()
                    + d@[i as int].take(j + 1));
            }
            j = j + 1;
        }
        proof {
            assert(d@[i as int].take(hunk.0@.len() as int) =~= d@[i as int]);
            Seq::lemma_flatten_push(d@.take(i as int), d@[i as int]);
            assert(d@.take(i as int).push(d@[i as int]) =~= d@.take(i + 1));
            assert(v@.map_values(|l: DiffLine| l@) =~= d@.take(i + 1).flatten());
        }
        i = i + 1;
    }
    proof {
        assert(d@.take(d.0@.len() as int) =~= d@);
        assert(v@.map_values(|l: DiffLine| l@) == flat_lines(d@));
        assert(v@.map_values(|l: DiffLine| l@).len() == v@.len());
        assert(forall|k: int|
            0 <= k < v@.len() ==> (#[trigger] v@[k])@ == v@.map_values(|l: DiffLine| l@)[k]);
    }
    v
}

/// A string cut down to its first `width` characters; shorter strings come
/// back whole.
pub fn clip_text(s: &String, width: usize) -> (r: String)
    ensures
        r@ == clip(s@, width as nat),
{
    let n = s.as_str().unicode_len();
    if n <= width {
        s.clone()
    } else {
        let sub = s.as_str().substring_char(0, width);
        String::from_str(sub)
    }
}

impl DiffComponent {
    /// The render transform, a pure function of the pane's state: flattens
    /// the diff, styles each line by its classification, skips the first
    /// `scroll` lines, shows at most `height` of the rest with each clipped
    /// to `width` characters, and decorates the frame according to focus.
    /// Total: an empty diff or an offset past the end simply yields no
    /// visible lines, with the frame still decorated.
    pub fn draw(&self, width: usize, height: usize) -> (out: Rendering)
        ensures
            out.lines@.len() == visible_count(
                flat_lines(self@.diff).len(),
                self@.scroll as nat,
                height as nat,
            ),
            forall|i: int|
                0 <= i < out.lines@.len() ==> (#[trigger] out.lines@[i])@ == rendered_line(
                    flat_lines(self@.diff)[self@.scroll + i],
                    width as nat,
                ),
            out.border == border_style_of(self@.focused),
            out.title_style == title_style_of(self@.focused),
    {
        let flat = flatten_lines(&self.diff);
        let total = flat.len();
        let start = if (self.scroll as usize) < total {
            self.scroll as usize
        } else {
            total
        };
        let remaining = total - start;
        let count = if height < remaining {
            height
        } else {
            remaining
        };
        proof {
            assert(count == visible_count(
                flat_lines(self@.diff).len(),
                self@.scroll as nat,
                height as nat,
            ));
        }
        let mut lines: Vec<StyledLine> = Vec::new();
        let mut k: usize = 0;
        while k < count
            invariant
                k <= count,
                start + count <= total,
                total == flat@.len(),
                start == if (self@.scroll as int) < total {
                    self@.scroll as int
                } else {
                    total as int
                },
                flat@.len() == flat_lines(self@.diff).len(),
                forall|i: int|
                    0 <= i < flat@.len() ==> (#[trigger] flat@[i])@ == flat_lines(self@.diff)[i],
                lines@.len() == k,
                forall|i: int|
                    0 <= i < k ==> (#[trigger] lines@[i])@ == rendered_line(
                        flat_lines(self@.diff)[start + i],
                        width as nat,
                    ),
            decreases count - k,
        {
            let line = &flat[start + k];
            let content = clip_text(&line.content, width);
            let style = style_for(line.line_type);
            lines.push(StyledLine { content, style });
            k = k + 1;
        }
        let border = if self.focused {
            LineStyle { fg: Color::Green, bg: Color::Reset, bold: false }
        } else {
            LineStyle { fg: Color::Reset, bg: Color::Reset, bold: false }
        };
        let title_style = if self.focused {
            LineStyle { fg: Color::Reset, bg: Color::Reset, bold: true }
        } else {
            LineStyle { fg: Color::Reset, bg: Color::Reset, bold: false }
        };
        Rendering { lines, border, title_style }
    }
}

} // verus!
