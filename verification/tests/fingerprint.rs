use diffpane::component::DiffComponent;
use diffpane::diff::{Diff, DiffLine, DiffLineType, Hunk};
use diffpane::fingerprint::{diff_content_eq, hash, hash_matches, ContentHash};

fn line(s: &str, t: DiffLineType) -> DiffLine {
    DiffLine { content: s.to_string(), line_type: t }
}

#[test]
fn sentinel_matches_no_diff() {
    assert!(!hash_matches(&ContentHash::Sentinel, &Diff::empty()));
    let d = Diff(vec![Hunk(vec![line("x", DiffLineType::Context)])]);
    assert!(!hash_matches(&ContentHash::Sentinel, &d));
}

#[test]
fn fingerprint_matches_exactly_equal_content() {
    let d = Diff(vec![
        Hunk(vec![
            line("@@", DiffLineType::Header),
            line("-a", DiffLineType::Delete),
        ]),
        Hunk(vec![line("+b", DiffLineType::Add)]),
    ]);
    let h = hash(&d);
    assert!(hash_matches(&h, &d));

    let mut other_text = Diff(vec![
        Hunk(vec![
            line("@@", DiffLineType::Header),
            line("-a", DiffLineType::Delete),
        ]),
        Hunk(vec![line("+b", DiffLineType::Add)]),
    ]);
    assert!(hash_matches(&h, &other_text));
    other_text.0[1].0[0].content = "+c".to_string();
    assert!(!hash_matches(&h, &other_text));

    let mut other_tag = Diff(vec![
        Hunk(vec![
            line("@@", DiffLineType::Header),
            line("-a", DiffLineType::Delete),
        ]),
        Hunk(vec![line("+b", DiffLineType::Add)]),
    ]);
    other_tag.0[0].0[1].line_type = DiffLineType::Context;
    assert!(!hash_matches(&h, &other_tag));
}

#[test]
fn content_equality_sees_hunk_boundaries() {
    // Same flattened lines, different hunk structure: distinct content.
    let joined = Diff(vec![Hunk(vec![
        line("a", DiffLineType::Context),
        line("b", DiffLineType::Context),
    ])]);
    let split = Diff(vec![
        Hunk(vec![line("a", DiffLineType::Context)]),
        Hunk(vec![line("b", DiffLineType::Context)]),
    ]);
    assert!(diff_content_eq(&joined, &joined.clone()));
    assert!(!diff_content_eq(&joined, &split));
    assert!(!hash_matches(&hash(&joined), &split));
}

#[test]
fn default_values_are_empty() {
    let d = Diff::default();
    assert_eq!(d.0.len(), 0);
    let c = DiffComponent::default();
    assert!(!c.focused());
    assert!(!c.can_scroll());
    let (path, staged) = c.current();
    assert_eq!(path, "");
    assert!(!staged);
    assert_eq!(c.draw(10, 10).lines.len(), 0);
}
