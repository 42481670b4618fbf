//! The diff pane itself: state, change detection, scrolling, input handling
//! and the advertised command.

use vstd::prelude::*;

use crate::diff::{Diff, DiffLineView};
use crate::fingerprint::{hash, hash_matches, ContentHash};
use crate::input::{Event, KeyCode};

verus! {

/// Abstract state of the pane: what the contracts speak about.
#[verifier::ext_equal]
pub struct ViewState {
    /// Content of the displayed diff: hunks of (text, tag) lines.
    pub diff: Seq<Seq<DiffLineView>>,
    /// Number of leading rendered lines the viewport skips.
    pub scroll: u16,
    /// Whether the pane currently receives input.
    pub focused: bool,
    /// Path of the displayed target.
    pub path: Seq<char>,
    /// Whether the displayed target is the staged version.
    pub staged: bool,
    /// Recorded fingerprint: `None` is the sentinel that matches no diff.
    pub hash: Option<Seq<Seq<DiffLineView>>>,
}

impl ViewState {
    /// The fingerprint always describes the displayed diff: either it is the
    /// sentinel and the pane shows nothing, or it records exactly the
    /// displayed content. Established at construction and kept by every
    /// mutation.
    pub open spec fn wf(self) -> bool {
        match self.hash {
            None => self.diff == Seq::<Seq<DiffLineView>>::empty(),
            Some(c) => c == self.diff,
        }
    }
}

/// What `update` does: a push whose content matches the recorded fingerprint
/// is a no-op; any other push replaces target, content and fingerprint and
/// resets the scroll position. Focus is never touched.
pub open spec fn update_spec(
    s: ViewState,
    path: Seq<char>,
    is_stage: bool,
    d: Seq<Seq<DiffLineView>>,
) -> ViewState {
    if s.hash == Some(d) {
        s
    } else {
        ViewState { diff: d, scroll: 0, path, staged: is_stage, hash: Some(d), focused: s.focused }
    }
}

/// What `clear` does: it empties the displayed content and the whole target
/// identity — path and staged flag — and drops the fingerprint back to the
/// sentinel, so that whatever diff is pushed next is treated as a change.
/// Scroll and focus keep their values.
pub open spec fn clear_spec(s: ViewState) -> ViewState {
    ViewState {
        diff: Seq::<Seq<DiffLineView>>::empty(),
        path: Seq::<char>::empty(),
        staged: false,
        hash: None,
        ..s
    }
}

/// What one scroll step does: increase saturates at the largest representable
/// offset, decrease saturates at zero.
pub open spec fn scroll_spec(cur: u16, inc: bool) -> u16 {
    if inc {
        if cur < u16::MAX {
            (cur + 1) as u16
        } else {
            cur
        }
    } else {
        if cur > 0 {
            (cur - 1) as u16
        } else {
            0
        }
    }
}

/// What `event` does to the state: while focused, the down and up keys scroll
/// by one step; everything else — any other key, any non-key event, or any
/// event while unfocused — leaves the state untouched.
pub open spec fn event_spec(s: ViewState, ev: Event) -> ViewState {
    if s.focused {
        match ev {
            Event::Key(KeyCode::Down) => (ViewState { scroll: scroll_spec(s.scroll, true), ..s }),
            Event::Key(KeyCode::Up) => (ViewState { scroll: scroll_spec(s.scroll, false), ..s }),
            _ => s,
        }
    } else {
        s
    }
}

/// Whether `event` consumes the event: only a focused pane consumes anything,
/// and then exactly the down and up keys.
pub open spec fn event_consumed(s: ViewState, ev: Event) -> bool {
    s.focused && (ev == Event::Key(KeyCode::Down) || ev == Event::Key(KeyCode::Up))
}

/// One advertised action of the pane, for an external command-hint surface.
pub struct CommandInfo {
    pub name: String,
    pub enabled: bool,
    pub visible: bool,
}

impl CommandInfo {
    pub fn new(name: String, enabled: bool, visible: bool) -> (c: CommandInfo)
        ensures
            c.name@ == name@,
            c.enabled == enabled,
            c.visible == visible,
    {
        CommandInfo { name, enabled, visible }
    }
}

/// Name of the single action the pane advertises.
pub open spec fn cmd_scroll_text() -> Seq<char> {
    "scroll"@
}

/// The scrollable diff pane.
pub struct DiffComponent {
    pub diff: Diff,
    pub scroll: u16,
    pub focused: bool,
    pub current: (String, bool),
    pub current_hash: ContentHash,
}

impl View for DiffComponent {
    type V = ViewState;

    open spec fn view(&self) -> ViewState {
        ViewState {
            diff: self.diff@,
            scroll: self.scroll,
            focused: self.focused,
            path: self.current.0@,
            staged: self.current.1,
            hash: self.current_hash@,
        }
    }
}

impl DiffComponent {
    /// A fresh pane: empty diff, zero scroll, unfocused, empty target,
    /// sentinel fingerprint.
    pub fn new() -> (c: DiffComponent)
        ensures
            c@.diff == Seq::<Seq<DiffLineView>>::empty(),
            c@.scroll == 0,
            !c@.focused,
            c@.path == Seq::<char>::empty(),
            !c@.staged,
            c@.hash is None,
            c@.wf(),
    {
        DiffComponent {
            diff: Diff::empty(),
            scroll: 0,
            focused: false,
            current: (String::new(), false),
            current_hash: ContentHash::Sentinel,
        }
    }

    /// Scrolling is advertised once the diff has more than one hunk.
    pub fn can_scroll(&self) -> (r: bool)
        ensures
            r == (self@.diff.len() > 1),
    {
        self.diff.0.len() > 1
    }

    /// The identity of the displayed target: its path and whether it is the
    /// staged version. Pure; returns a copy.
    pub fn current(&self) -> (r: (String, bool))
        ensures
            r.0@ == self@.path,
            r.1 == self@.staged,
    {
        (self.current.0.clone(), self.current.1)
    }

    /// Empties the displayed target — path and staged flag — and the diff,
    /// and drops the fingerprint back to the sentinel, so the next `update`
    /// is always detected as a change.
    pub fn clear(&mut self)
        ensures
            final(self)@ == clear_spec(old(self)@),
            final(self)@.wf(),
    {
        self.current = (String::new(), false);
        self.diff = Diff::empty();
        self.current_hash = ContentHash::Sentinel;
        proof {
            assert(self@ =~~= clear_spec(old(self)@));
        }
    }

    /// Pushes a freshly computed diff for a target. When the content equals
    /// what the recorded fingerprint describes, nothing observable changes —
    /// in particular the scroll position survives the refresh. Otherwise the
    /// target, content and fingerprint are replaced together and the scroll
    /// position is reset to zero.
    pub fn update(&mut self, path: String, is_stage: bool, diff: Diff)
        ensures
            final(self)@ == update_spec(old(self)@, path@, is_stage, diff@),
            old(self)@.wf() ==> final(self)@.wf(),
    {
        let changed = !hash_matches(&self.current_hash, &diff);

        if changed {
            let h = hash(&diff);
            self.current = (path, is_stage);
            self.current_hash = h;
            self.diff = diff;
            self.scroll = 0;
            proof {
                assert(self@ =~~= update_spec(old(self)@, path@, is_stage, self.diff@));
            }
        }
    }

    /// One scroll step: saturating in both directions.
    pub fn scroll(&mut self, inc: bool)
        ensures
            final(self)@ == (ViewState { scroll: scroll_spec(old(self)@.scroll, inc), ..old(self)@ }),
    {
        if inc {
            if self.scroll < u16::MAX {
                self.scroll = self.scroll + 1;
            }
        } else {
            if self.scroll > 0 {
                self.scroll = self.scroll - 1;
            }
        }
        proof {
            assert(self@ =~~= (ViewState { scroll: scroll_spec(old(self)@.scroll, inc), ..old(self)@ }));
        }
    }

    /// Handles one input event and reports whether it was consumed. An
    /// unfocused pane never consumes anything and never changes; a focused
    /// pane consumes exactly the down and up keys, scrolling one step.
    pub fn event(&mut self, ev: Event) -> (consumed: bool)
        ensures
            consumed == event_consumed(old(self)@, ev),
            final(self)@ == event_spec(old(self)@, ev),
    {
        if self.focused {
            if let Event::Key(code) = ev {
                return match code {
                    KeyCode::Down => {
                        self.scroll(true);
                        true
                    },
                    KeyCode::Up => {
                        self.scroll(false);
                        true
                    },
                    KeyCode::Other => false,
                };
            }
        }
        false
    }

    /// The actions this pane advertises: exactly one, "scroll", enabled when
    /// scrolling is available and visible while the pane is focused.
    /// Recomputed fresh on every call.
    pub fn commands(&self) -> (r: Vec<CommandInfo>)
        ensures
            r@.len() == 1,
            r@[0].name@ == cmd_scroll_text(),
            r@[0].enabled == (self@.diff.len() > 1),
            r@[0].visible == self@.focused,
    {
        let mut r: Vec<CommandInfo> = Vec::new();
        r.push(CommandInfo::new(String::from_str("scroll"), self.can_scroll(), self.focused));
        r
    }

    /// Whether the pane currently has focus.
    pub fn focused(&self) -> (r: bool)
        ensures
            r == self@.focused,
    {
        self.focused
    }

    /// Grants or withdraws focus; nothing else changes.
    pub fn focus(&mut self, focus: bool)
        ensures
            final(self)@ == (ViewState { focused: focus, ..old(self)@ }),
    {
        self.focused = focus;
        proof {
            assert(self@ =~~= (ViewState { focused: focus, ..old(self)@ }));
        }
    }
}

impl Default for DiffComponent {
    fn default() -> (c: DiffComponent)
        ensures
            c@.diff == Seq::<Seq<DiffLineView>>::empty(),
            c@.scroll == 0,
            !c@.focused,
            c@.path == Seq::<char>::empty(),
            !c@.staged,
            c@.hash is None,
            c@.wf(),
    {
        DiffComponent::new()
    }
}

/// A refresh whose content equals the one already recorded is a complete
/// no-op: pushing a diff and then pushing the same content again leaves the
/// whole observable state — the scroll position in particular — exactly as it
/// was after the first push, whatever target identity accompanies it.
pub proof fn lemma_same_content_update_is_noop(
    s: ViewState,
    p1: Seq<char>,
    b1: bool,
    d1: Seq<Seq<DiffLineView>>,
    p2: Seq<char>,
    b2: bool,
    d2: Seq<Seq<DiffLineView>>,
)
    requires
        d2 == d1,
    ensures
        update_spec(update_spec(s, p1, b1, d1), p2, b2, d2) == update_spec(s, p1, b1, d1),
        update_spec(update_spec(s, p1, b1, d1), p2, b2, d2).scroll == update_spec(
            s,
            p1,
            b1,
            d1,
        ).scroll,
{
    assert(update_spec(s, p1, b1, d1).hash == Some(d1));
}

/// Two diffs whose flattened line content or classification differs are
/// always detected as a change: the second push replaces the content and
/// resets the scroll position to zero.
pub proof fn lemma_changed_update_resets_scroll(
    s: ViewState,
    p1: Seq<char>,
    b1: bool,
    d1: Seq<Seq<DiffLineView>>,
    p2: Seq<char>,
    b2: bool,
    d2: Seq<Seq<DiffLineView>>,
)
    requires
        crate::diff::flat_lines(d1) != crate::diff::flat_lines(d2),
    ensures
        update_spec(update_spec(s, p1, b1, d1), p2, b2, d2).scroll == 0,
        update_spec(update_spec(s, p1, b1, d1), p2, b2, d2).diff == d2,
{
    assert(d1 != d2);
    assert(update_spec(s, p1, b1, d1).hash == Some(d1));
}

/// Scrolling saturates: a decrease at offset zero stays at zero, an increase
/// at the largest representable offset stays there.
pub proof fn lemma_scroll_saturates()
    ensures
        scroll_spec(0, false) == 0,
        scroll_spec(u16::MAX, true) == u16::MAX,
{
}

/// While unfocused, the pane consumes no event and no event changes its
/// state.
pub proof fn lemma_unfocused_ignores_input(s: ViewState, ev: Event)
    requires
        !s.focused,
    ensures
        !event_consumed(s, ev),
        event_spec(s, ev) == s,
{
}

/// While focused: a down key is consumed and moves the scroll position up by
/// exactly one (saturating at the maximum), an up key is consumed and moves
/// it down by exactly one (with floor zero), and any other event is not
/// consumed and changes nothing.
pub proof fn lemma_focused_key_scrolls(s: ViewState, ev: Event)
    requires
        s.focused,
    ensures
        ev == Event::Key(KeyCode::Down) ==> event_consumed(s, ev) && event_spec(s, ev) == (
        ViewState { scroll: scroll_spec(s.scroll, true), ..s }),
        ev == Event::Key(KeyCode::Down) && s.scroll < u16::MAX ==> event_spec(s, ev).scroll
            == s.scroll + 1,
        ev == Event::Key(KeyCode::Up) ==> event_consumed(s, ev) && event_spec(s, ev) == (
        ViewState { scroll: scroll_spec(s.scroll, false), ..s }),
        ev == Event::Key(KeyCode::Up) && s.scroll > 0 ==> event_spec(s, ev).scroll == s.scroll
            - 1,
        ev == Event::Key(KeyCode::Up) && s.scroll == 0 ==> event_spec(s, ev).scroll == 0,
        ev != Event::Key(KeyCode::Down) && ev != Event::Key(KeyCode::Up) ==> !event_consumed(
            s,
            ev,
        ) && event_spec(s, ev) == s,
{
}

/// After `clear`, any push — even one whose content equals what was shown
/// before the clear — is detected as a change: the content is replaced and
/// the scroll position is reset to zero.
pub proof fn lemma_update_after_clear_resets(
    s: ViewState,
    p: Seq<char>,
    b: bool,
    d: Seq<Seq<DiffLineView>>,
)
    ensures
        update_spec(clear_spec(s), p, b, d).scroll == 0,
        update_spec(clear_spec(s), p, b, d).diff == d,
        update_spec(clear_spec(s), p, b, d).hash == Some(d),
{
    assert(clear_spec(s).hash is None);
}

} // verus!
