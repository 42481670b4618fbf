use diffpane::component::DiffComponent;
use diffpane::diff::{Diff, DiffLine, DiffLineType, Hunk};
use diffpane::input::{Event, KeyCode};
use diffpane::render::{flatten_lines, style_for, title, Color, LineStyle};

fn line(s: &str, t: DiffLineType) -> DiffLine {
    DiffLine { content: s.to_string(), line_type: t }
}

fn ten_line_diff() -> Diff {
    // Three hunks, ten flattened lines in all.
    Diff(vec![
        Hunk(vec![
            line("l0", DiffLineType::Header),
            line("l1", DiffLineType::Delete),
            line("l2", DiffLineType::Add),
            line("l3", DiffLineType::Context),
        ]),
        Hunk(vec![
            line("l4", DiffLineType::Header),
            line("l5", DiffLineType::Add),
            line("l6", DiffLineType::Context),
        ]),
        Hunk(vec![
            line("l7", DiffLineType::Header),
            line("l8", DiffLineType::Delete),
            line("l9", DiffLineType::Context),
        ]),
    ])
}

#[test]
fn window_shows_five_rows_then_scrolls_by_two() {
    let mut c = DiffComponent::new();
    c.update("a.rs".to_string(), false, ten_line_diff());
    let shown = c.draw(80, 5);
    let texts: Vec<&str> = shown.lines.iter().map(|l| l.content.as_str()).collect();
    assert_eq!(texts, ["l0", "l1", "l2", "l3", "l4"]);
    c.focus(true);
    assert!(c.event(Event::Key(KeyCode::Down)));
    assert!(c.event(Event::Key(KeyCode::Down)));
    let shown = c.draw(80, 5);
    let texts: Vec<&str> = shown.lines.iter().map(|l| l.content.as_str()).collect();
    assert_eq!(texts, ["l2", "l3", "l4", "l5", "l6"]);
}

#[test]
fn each_classification_keeps_its_style() {
    let mut c = DiffComponent::new();
    c.update(
        "a.rs".to_string(),
        false,
        Diff(vec![Hunk(vec![
            line("h", DiffLineType::Header),
            line("a", DiffLineType::Add),
            line("d", DiffLineType::Delete),
            line("x", DiffLineType::Context),
        ])]),
    );
    let shown = c.draw(80, 4);
    assert_eq!(
        shown.lines[0].style,
        LineStyle { fg: Color::Black, bg: Color::Gray, bold: true }
    );
    assert_eq!(
        shown.lines[1].style,
        LineStyle { fg: Color::Green, bg: Color::Black, bold: false }
    );
    assert_eq!(
        shown.lines[2].style,
        LineStyle { fg: Color::Red, bg: Color::Black, bold: false }
    );
    assert_eq!(
        shown.lines[3].style,
        LineStyle { fg: Color::Reset, bg: Color::Reset, bold: false }
    );
    // The four styles are pairwise distinct, so inspecting a painted span
    // recovers the classification.
    let styles = [
        style_for(DiffLineType::Header),
        style_for(DiffLineType::Add),
        style_for(DiffLineType::Delete),
        style_for(DiffLineType::Context),
    ];
    for i in 0..styles.len() {
        for j in 0..styles.len() {
            if i != j {
                assert_ne!(styles[i], styles[j]);
            }
        }
    }
}

#[test]
fn empty_diff_renders_empty_frame() {
    let c = DiffComponent::new();
    let shown = c.draw(80, 24);
    assert_eq!(shown.lines.len(), 0);
    assert_eq!(
        shown.border,
        LineStyle { fg: Color::Reset, bg: Color::Reset, bold: false }
    );
    assert_eq!(
        shown.title_style,
        LineStyle { fg: Color::Reset, bg: Color::Reset, bold: false }
    );
}

#[test]
fn focus_emphasizes_the_frame() {
    let mut c = DiffComponent::new();
    c.focus(true);
    let shown = c.draw(80, 24);
    assert_eq!(
        shown.border,
        LineStyle { fg: Color::Green, bg: Color::Reset, bold: false }
    );
    assert_eq!(
        shown.title_style,
        LineStyle { fg: Color::Reset, bg: Color::Reset, bold: true }
    );
    assert_eq!(title(), "Diff: ");
}

#[test]
fn offset_past_the_end_renders_nothing() {
    let mut c = DiffComponent::new();
    c.update("a.rs".to_string(), false, ten_line_diff());
    for _ in 0..100 {
        c.scroll(true);
    }
    let shown = c.draw(80, 5);
    assert_eq!(shown.lines.len(), 0);
}

#[test]
fn empty_hunks_contribute_nothing() {
    let d = Diff(vec![
        Hunk(vec![]),
        Hunk(vec![line("a", DiffLineType::Context)]),
        Hunk(vec![]),
        Hunk(vec![line("b", DiffLineType::Add)]),
    ]);
    let flat = flatten_lines(&d);
    assert_eq!(flat.len(), 2);
    assert_eq!(flat[0].content, "a");
    assert_eq!(flat[1].content, "b");
    let mut c = DiffComponent::new();
    c.update("a.rs".to_string(), false, d);
    let shown = c.draw(80, 5);
    assert_eq!(shown.lines.len(), 2);
}

#[test]
fn lines_are_clipped_to_the_width() {
    let mut c = DiffComponent::new();
    c.update(
        "a.rs".to_string(),
        false,
        Diff(vec![Hunk(vec![
            line("abcdef", DiffLineType::Context),
            line("ab", DiffLineType::Context),
        ])]),
    );
    let shown = c.draw(3, 5);
    assert_eq!(shown.lines[0].content, "abc");
    assert_eq!(shown.lines[1].content, "ab");
    let shown = c.draw(0, 5);
    assert_eq!(shown.lines[0].content, "");
    assert_eq!(shown.lines.len(), 2);
}

#[test]
fn height_zero_renders_nothing() {
    let mut c = DiffComponent::new();
    c.update("a.rs".to_string(), false, ten_line_diff());
    let shown = c.draw(80, 0);
    assert_eq!(shown.lines.len(), 0);
}
