//! Material 3 segmented button: a row of mutually-adjacent choices sharing
//! one outline. The control owns selection, hover, press and focus for every
//! segment; a single-select group cannot let its members decide their own
//! selection independently of their siblings.
use vstd::prelude::*;

use crate::keyboard::{key, KeyboardEvent};
use crate::pointer::{button, PointerEventKind};
use crate::widgets::icon::Icon;
use crate::widgets::interaction::{key_intent, key_intent_spec, KeyIntent, StateLayer};
use crate::widgets::scan::{
    find_backward, find_forward, lemma_scan_backward, lemma_scan_forward, scan_backward,
    scan_forward,
};

verus! {

/// One choice in a [`SegmentedButton`]. Carries only configuration.
pub struct Segment {
    label: Option<String>,
    icon: Option<Icon>,
    enabled: bool,
}

pub ghost struct SegmentView {
    pub label: Option<Seq<char>>,
    pub icon: Option<Icon>,
    pub enabled: bool,
}

pub open spec fn opt_str_view(s: Option<String>) -> Option<Seq<char>> {
    match s {
        Some(t) => Some(t@),
        None => None,
    }
}

impl View for Segment {
    type V = SegmentView;

    closed spec fn view(&self) -> SegmentView {
        SegmentView { label: opt_str_view(self.label), icon: self.icon, enabled: self.enabled }
    }
}

impl Segment {
    /// A label-only segment.
    pub fn new(label: &str) -> (r: Self)
        ensures
            r@ == (SegmentView { label: Some(label@), icon: None, enabled: true }),
    {
        Segment { label: Some(String::from_str(label)), icon: None, enabled: true }
    }

    /// A segment with no label, identified by icon alone.
    pub fn icon_only(icon: Icon) -> (r: Self)
        ensures
            r@ == (SegmentView { label: None, icon: Some(icon), enabled: true }),
    {
        Segment { label: None, icon: Some(icon), enabled: true }
    }

    /// Adds a leading icon to a label segment (or replaces one on an
    /// icon-only segment).
    pub fn icon(self, icon: Icon) -> (r: Self)
        ensures
            r@ == (SegmentView { icon: Some(icon), ..self@ }),
    {
        Segment { icon: Some(icon), ..self }
    }

    pub fn enabled(self, enabled: bool) -> (r: Self)
        ensures
            r@ == (SegmentView { enabled, ..self@ }),
    {
        Segment { enabled, ..self }
    }
}

/// How many segments can be selected at once.
#[derive(Debug, Clone, Copy, PartialEq, Eq, Default, Structural)]
pub enum SelectionMode {
    /// Exactly one segment selected once a selection exists: activating the
    /// sole selected segment again is a no-op rather than clearing it.
    #[default]
    Single,
    /// Any number of segments selected independently.
    Multi,
}

pub ghost struct SegmentedView {
    pub labels: Seq<Option<Seq<char>>>,
    pub icons: Seq<Option<Icon>>,
    pub segment_enabled: Seq<bool>,
    pub mode: SelectionMode,
    pub selected: Seq<bool>,
    pub show_check: bool,
    pub enabled: bool,
    pub font_key: Seq<char>,
    pub hovered: Option<usize>,
    pub pressed: Option<usize>,
    pub focused: bool,
    pub focused_index: usize,
}

/// No two distinct entries of `s` are set.
pub open spec fn at_most_one(s: Seq<bool>) -> bool {
    forall|i: int, j: int| 0 <= i < s.len() && 0 <= j < s.len() && #[trigger] s[i] && #[trigger] s[j] ==> i == j
}

/// The index of the first set entry of `s`.
pub open spec fn first_set(s: Seq<bool>) -> Option<int> {
    scan_forward(s, 0)
}

/// Exactly entry `index` of a sequence of `len` flags is set.
pub open spec fn only(len: nat, index: int) -> Seq<bool> {
    Seq::new(len, |i: int| i == index)
}

/// `s` with every set entry but the first cleared.
pub open spec fn keep_first(s: Seq<bool>) -> Seq<bool> {
    Seq::new(s.len(), |i: int| s[i] && forall|j: int| 0 <= j < i ==> !#[trigger] s[j])
}

/// The indices of the set entries of `s`, in increasing order.
pub open spec fn set_indices(s: Seq<bool>) -> Seq<usize>
    decreases s.len(),
{
    if s.len() == 0 {
        Seq::empty()
    } else if s.last() {
        set_indices(s.drop_last()).push((s.len() - 1) as usize)
    } else {
        set_indices(s.drop_last())
    }
}

impl SegmentedView {
    pub open spec fn len(self) -> nat {
        self.labels.len()
    }

    /// Every per-segment sequence has one entry per segment; a single-select
    /// group never has more than one segment selected; the keyboard cursor
    /// is on a segment, or at 0 for an empty control.
    pub open spec fn wf(self) -> bool {
        &&& self.icons.len() == self.len()
        &&& self.segment_enabled.len() == self.len()
        &&& self.selected.len() == self.len()
        &&& self.mode == SelectionMode::Single ==> at_most_one(self.selected)
        &&& self.focused_index == 0 || self.focused_index < self.len()
        &&& self.len() <= usize::MAX
    }

    /// Segment `index` can be activated.
    pub open spec fn can_activate(self, index: int) -> bool {
        0 <= index < self.len() && self.enabled && self.segment_enabled[index]
    }

    /// The selection after activating segment `index`, and the changes
    /// reported as `(index, now_selected)` pairs, in order.
    pub open spec fn activation(self, index: int) -> (Seq<bool>, Seq<(usize, bool)>) {
        if !self.can_activate(index) {
            (self.selected, Seq::empty())
        } else if self.mode == SelectionMode::Single {
            if self.selected[index] {
                (self.selected, Seq::empty())
            } else {
                let done = seq![(index as usize, true)];
                (
                    only(self.len(), index),
                    match first_set(self.selected) {
                        Some(p) => seq![(p as usize, false)] + done,
                        None => done,
                    },
                )
            }
        } else {
            (
                self.selected.update(index, !self.selected[index]),
                seq![(index as usize, !self.selected[index])],
            )
        }
    }

    /// Where the keyboard cursor lands when moving backward or forward.
    pub open spec fn focus_target(self, forward: bool) -> Option<int> {
        if forward {
            scan_forward(self.segment_enabled, self.focused_index + 1)
        } else {
            scan_backward(self.segment_enabled, self.focused_index - 1)
        }
    }

    /// The segment under the pointer, counting only enabled segments: a
    /// disabled segment behaves as a gap for hit testing.
    pub open spec fn enabled_hit(self, hit: Option<usize>) -> Option<usize> {
        match hit {
            Some(i) => if i < self.len() && self.segment_enabled[i as int] {
                Some(i)
            } else {
                None
            },
            None => None,
        }
    }
}

/// What an input event did: whether the control needs a repaint, and the
/// selection changes to report as `(index, now_selected)`.
pub struct SegmentedOutcome {
    pub redraw: bool,
    pub changes: Vec<(usize, bool)>,
}

/// A row of segments sharing one container outline.
pub struct SegmentedButton {
    labels: Vec<Option<String>>,
    icons: Vec<Option<Icon>>,
    segment_enabled: Vec<bool>,
    mode: SelectionMode,
    /// Parallel to the segments: selection is a property of the group.
    selected: Vec<bool>,
    show_check: bool,
    enabled: bool,
    font_key: String,
    hovered: Option<usize>,
    pressed: Option<usize>,
    focused: bool,
    /// The keyboard cursor: which segment Left/Right/Space act on, distinct
    /// from `hovered`/`pressed`, which track the pointer.
    focused_index: usize,
}

pub open spec fn opt_strs_view(v: Seq<Option<String>>) -> Seq<Option<Seq<char>>> {
    v.map_values(|s: Option<String>| opt_str_view(s))
}

impl View for SegmentedButton {
    type V = SegmentedView;

    closed spec fn view(&self) -> SegmentedView {
        SegmentedView {
            labels: opt_strs_view(self.labels@),
            icons: self.icons@,
            segment_enabled: self.segment_enabled@,
            mode: self.mode,
            selected: self.selected@,
            show_check: self.show_check,
            enabled: self.enabled,
            font_key: self.font_key@,
            hovered: self.hovered,
            pressed: self.pressed,
            focused: self.focused,
            focused_index: self.focused_index,
        }
    }
}

impl SegmentedButton {
    /// An empty, enabled, single-select control showing checks.
    pub fn new() -> (r: Self)
        ensures
            r@.wf(),
            r@ == (SegmentedView {
                labels: Seq::empty(),
                icons: Seq::empty(),
                segment_enabled: Seq::empty(),
                mode: SelectionMode::Single,
                selected: Seq::empty(),
                show_check: true,
                enabled: true,
                font_key: "noto_sans"@,
                hovered: None,
                pressed: None,
                focused: false,
                focused_index: 0,
            }),
    {
        let r = SegmentedButton {
            labels: Vec::new(),
            icons: Vec::new(),
            segment_enabled: Vec::new(),
            mode: SelectionMode::Single,
            selected: Vec::new(),
            show_check: true,
            enabled: true,
            font_key: String::from_str("noto_sans"),
            hovered: None,
            pressed: None,
            focused: false,
            focused_index: 0,
        };
        proof {
            assert(opt_strs_view(r.labels@) =~= Seq::empty());
        }
        r
    }

    pub fn segment(self, segment: Segment) -> (r: Self)
        requires
            self@.wf(),
            self@.len() < usize::MAX,
        ensures
            r@.wf(),
            r@ == (SegmentedView {
                labels: self@.labels.push(segment@.label),
                icons: self@.icons.push(segment@.icon),
                segment_enabled: self@.segment_enabled.push(segment@.enabled),
                selected: self@.selected.push(false),
                ..self@
            }),
    {
        let mut s = self;
        s.push_segment(segment);
        s
    }

    /// Appends a segment, unselected. The segment count, and therefore
    /// every proportional width, changes.
    pub fn push_segment(&mut self, segment: Segment)
        requires
            old(self)@.wf(),
            old(self)@.len() < usize::MAX,
        ensures
            final(self)@.wf(),
            final(self)@ == (SegmentedView {
                labels: old(self)@.labels.push(segment@.label),
                icons: old(self)@.icons.push(segment@.icon),
                segment_enabled: old(self)@.segment_enabled.push(segment@.enabled),
                selected: old(self)@.selected.push(false),
                ..old(self)@
            }),
    {
        let ghost old_labels = self.labels@;
        let Segment { label, icon, enabled } = segment;
        self.labels.push(label);
        self.icons.push(icon);
        self.segment_enabled.push(enabled);
        self.selected.push(false);
        proof {
            assert(opt_strs_view(self.labels@) =~= opt_strs_view(old_labels).push(opt_str_view(label)));
            let s = self.selected@;
            if self.mode == SelectionMode::Single {
                assert forall|i: int, j: int| 0 <= i < s.len() && 0 <= j < s.len() && #[trigger] s[i] && #[trigger] s[j] implies i == j by {
                    assert(s[i] == old(self).selected@[i] || i == s.len() - 1);
                }
            }
        }
    }

    /// Sets the selection mode. Switching to single-select keeps only the
    /// first selected segment, so a single-select group never has more than
    /// one selected even if segments were pre-selected before.
    pub fn mode(self, mode: SelectionMode) -> (r: Self)
        requires
            self@.wf(),
        ensures
            r@.wf(),
            r@ == (SegmentedView {
                mode,
                selected: if mode == SelectionMode::Single {
                    keep_first(self@.selected)
                } else {
                    self@.selected
                },
                ..self@
            }),
    {
        let mut s = self;
        s.set_mode(mode);
        s
    }

    fn set_mode(&mut self, mode: SelectionMode)
        requires
            old(self)@.wf(),
        ensures
            final(self)@.wf(),
            final(self)@ == (SegmentedView {
                mode,
                selected: if mode == SelectionMode::Single {
                    keep_first(old(self)@.selected)
                } else {
                    old(self)@.selected
                },
                ..old(self)@
            }),
    {
        self.mode = mode;
        if mode == SelectionMode::Single {
            let ghost orig = self.selected@;
            let n = self.selected.len();
            let mut v: Vec<bool> = Vec::new();
            let mut kept_one = false;
            let mut i: usize = 0;
            while i < n
                invariant
                    n == orig.len(),
                    orig == self.selected@,
                    i <= n,
                    v@.len() == i,
                    kept_one <==> exists|j: int| 0 <= j < i && #[trigger] orig[j],
                    forall|j: int| 0 <= j < i ==> #[trigger] v@[j] == keep_first(orig)[j],
                decreases n - i,
            {
                let cur = self.selected[i];
                v.push(cur && !kept_one);
                if cur {
                    kept_one = true;
                }
                i = i + 1;
            }
            proof {
                assert(v@ =~= keep_first(orig));
                let s = v@;
                assert forall|a: int, b: int| 0 <= a < s.len() && 0 <= b < s.len() && #[trigger] s[a] && #[trigger] s[b] implies a == b by {
                    if a < b {
                        assert(orig[a]);
                    } else if b < a {
                        assert(orig[b]);
                    }
                }
            }
            self.selected = v;
        }
    }

    /// Sets the initial selection; an out-of-range index is ignored.
    pub fn selected(self, index: usize) -> (r: Self)
        requires
            self@.wf(),
        ensures
            r@.wf(),
            r@ == (SegmentedView { selected: self@.select_result(index as int, true), ..self@ }),
    {
        let mut s = self;
        s.set_selected(index, true);
        s
    }

    /// Whether selected segments show a leading check, replacing the
    /// segment's own icon while selected.
    pub fn show_check(self, show: bool) -> (r: Self)
        ensures
            r@ == (SegmentedView { show_check: show, ..self@ }),
    {
        SegmentedButton { show_check: show, ..self }
    }

    pub fn enabled(self, enabled: bool) -> (r: Self)
        ensures
            r@ == (SegmentedView { enabled, ..self@ }),
    {
        SegmentedButton { enabled, ..self }
    }

    /// Key of a font registered with the renderer; defaults to `noto_sans`.
    pub fn font(self, key: &str) -> (r: Self)
        ensures
            r@ == (SegmentedView { font_key: key@, ..self@ }),
    {
        SegmentedButton { font_key: String::from_str(key), ..self }
    }

    pub fn set_enabled(&mut self, enabled: bool)
        ensures
            final(self)@ == (SegmentedView { enabled, ..old(self)@ }),
    {
        self.enabled = enabled;
    }

    /// Enables or disables one segment; an out-of-range index is ignored.
    pub fn set_segment_enabled(&mut self, index: usize, enabled: bool)
        requires
            old(self)@.wf(),
        ensures
            final(self)@.wf(),
            final(self)@ == (SegmentedView {
                segment_enabled: if index < old(self)@.len() {
                    old(self)@.segment_enabled.update(index as int, enabled)
                } else {
                    old(self)@.segment_enabled
                },
                ..old(self)@
            }),
    {
        if index < self.segment_enabled.len() {
            self.segment_enabled.set(index, enabled);
        }
    }

    /// Programmatic selection; reports nothing. In single-select mode,
    /// selecting a segment deselects any other, and deselecting is a no-op:
    /// there is no way to explicitly clear a single-select selection. An
    /// out-of-range index is ignored.
    pub fn set_selected(&mut self, index: usize, selected: bool)
        requires
            old(self)@.wf(),
        ensures
            final(self)@.wf(),
            final(self)@ == (SegmentedView {
                selected: old(self)@.select_result(index as int, selected),
                ..old(self)@
            }),
    {
        let n = self.selected.len();
        if index >= n {
            return;
        }
        match self.mode {
            SelectionMode::Single => {
                if selected {
                    self.select_only(index);
                }
            },
            SelectionMode::Multi => {
                self.selected.set(index, selected);
            },
        }
    }

    /// Selects exactly segment `index`.
    fn select_only(&mut self, index: usize)
        requires
            old(self)@.wf(),
            index < old(self)@.len(),
        ensures
            final(self)@.wf(),
            final(self)@ == (SegmentedView { selected: only(old(self)@.len(), index as int), ..old(self)@ }),
    {
        let n = self.selected.len();
        let mut v: Vec<bool> = Vec::new();
        let mut i: usize = 0;
        while i < n
            invariant
                i <= n,
                v@.len() == i,
                forall|j: int| 0 <= j < i ==> #[trigger] v@[j] == (j == index),
            decreases n - i,
        {
            v.push(i == index);
            i = i + 1;
        }
        proof {
            assert(v@ =~= only(n as nat, index as int));
        }
        self.selected = v;
    }

    pub fn len(&self) -> (r: usize)
        requires
            self@.wf(),
        ensures
            r == self@.len(),
    {
        self.segment_enabled.len()
    }

    pub fn is_empty(&self) -> (r: bool)
        requires
            self@.wf(),
        ensures
            r == (self@.len() == 0),
    {
        self.segment_enabled.len() == 0
    }

    /// Whether segment `index` is selected; `false` out of range.
    pub fn is_selected(&self, index: usize) -> (r: bool)
        requires
            self@.wf(),
        ensures
            r == (index < self@.len() && self@.selected[index as int]),
    {
        index < self.selected.len() && self.selected[index]
    }

    /// The first selected segment, in index order.
    pub fn selected_index(&self) -> (r: Option<usize>)
        ensures
            r matches Some(i) ==> first_set(self@.selected) == Some(i as int),
            r is None ==> first_set(self@.selected) is None,
    {
        find_forward(&self.selected, 0)
    }

    /// Every selected segment, in index order.
    pub fn selected_indices(&self) -> (r: Vec<usize>)
        ensures
            r@ == set_indices(self@.selected),
    {
        let n = self.selected.len();
        let mut out: Vec<usize> = Vec::new();
        let mut i: usize = 0;
        while i < n
            invariant
                n == self.selected@.len(),
                i <= n,
                out@ == set_indices(self.selected@.take(i as int)),
            decreases n - i,
        {
            assert(self.selected@.take(i + 1).drop_last() == self.selected@.take(i as int));
            if self.selected[i] {
                out.push(i);
            }
            i = i + 1;
        }
        assert(self.selected@.take(n as int) == self.selected@);
        out
    }

    /// The first enabled segment.
    pub fn first_enabled_index(&self) -> (r: Option<usize>)
        ensures
            r matches Some(i) ==> scan_forward(self@.segment_enabled, 0) == Some(i as int),
            r is None ==> scan_forward(self@.segment_enabled, 0) is None,
    {
        find_forward(&self.segment_enabled, 0)
    }

    /// The single activation path shared by pointer release and Space or
    /// Return, so click and keyboard can never disagree about what
    /// activating segment `index` means. Returns the changes to report.
    pub fn activate(&mut self, index: usize) -> (changes: Vec<(usize, bool)>)
        requires
            old(self)@.wf(),
        ensures
            final(self)@.wf(),
            final(self)@ == (SegmentedView { selected: old(self)@.activation(index as int).0, ..old(self)@ }),
            changes@ == old(self)@.activation(index as int).1,
    {
        let mut changes: Vec<(usize, bool)> = Vec::new();
        if index >= self.segment_enabled.len() {
            return changes;
        }
        if !self.enabled || !self.segment_enabled[index] {
            return changes;
        }
        match self.mode {
            SelectionMode::Single => {
                if self.selected[index] {
                    return changes;
                }
                let previous = self.selected_index();
                self.select_only(index);
                if let Some(p) = previous {
                    changes.push((p, false));
                }
                changes.push((index, true));
                proof {
                    let done = seq![(index as usize, true)];
                    match first_set(old(self)@.selected) {
                        Some(p) => assert(changes@ =~= seq![(p as usize, false)] + done),
                        None => assert(changes@ =~= done),
                    }
                }
                changes
            },
            SelectionMode::Multi => {
                let now = !self.selected[index];
                self.selected.set(index, now);
                changes.push((index, now));
                proof {
                    assert(changes@ =~= seq![(index as usize, now)]);
                }
                changes
            },
        }
    }

    /// Activates the segment under the keyboard cursor.
    pub fn activate_focused(&mut self) -> (changes: Vec<(usize, bool)>)
        requires
            old(self)@.wf(),
        ensures
            final(self)@.wf(),
            final(self)@ == (SegmentedView {
                selected: old(self)@.activation(old(self)@.focused_index as int).0,
                ..old(self)@
            }),
            changes@ == old(self)@.activation(old(self)@.focused_index as int).1,
    {
        let i = self.focused_index;
        self.activate(i)
    }

    /// Moves the keyboard cursor to the nearest enabled segment before
    /// (`forward == false`) or after it, without wrapping around. Returns
    /// whether the cursor moved.
    pub fn move_focus(&mut self, forward: bool) -> (moved: bool)
        requires
            old(self)@.wf(),
        ensures
            final(self)@.wf(),
            moved <==> old(self)@.focus_target(forward) is Some,
            final(self)@ == (SegmentedView {
                focused_index: match old(self)@.focus_target(forward) {
                    Some(j) => j as usize,
                    None => old(self)@.focused_index,
                },
                ..old(self)@
            }),
    {
        let target = if forward {
            find_forward(&self.segment_enabled, self.focused_index + 1)
        } else {
            find_backward(&self.segment_enabled, self.focused_index)
        };
        proof {
            lemma_scan_forward(self.segment_enabled@, self.focused_index + 1);
            if self.focused_index > 0 {
                lemma_scan_backward(self.segment_enabled@, self.focused_index - 1);
            }
        }
        match target {
            Some(j) => {
                self.focused_index = j;
                true
            },
            None => false,
        }
    }

    /// The icon drawn for segment `index`: a check when selected (and
    /// checks are shown) replaces its configured icon.
    pub fn segment_icon(&self, index: usize) -> (r: Option<Icon>)
        requires
            self@.wf(),
            index < self@.len(),
        ensures
            r == if self@.show_check && self@.selected[index as int] {
                Some(Icon::Check)
            } else {
                self@.icons[index as int]
            },
    {
        if self.show_check && self.selected[index] {
            Some(Icon::Check)
        } else {
            self.icons[index]
        }
    }

    pub fn label(&self, index: usize) -> (r: Option<&str>)
        requires
            self@.wf(),
            index < self@.len(),
        ensures
            match r {
                Some(t) => self@.labels[index as int] == Some(t@),
                None => self@.labels[index as int] is None,
            },
    {
        match &self.labels[index] {
            Some(t) => Some(t.as_str()),
            None => None,
        }
    }

    pub fn is_segment_enabled(&self, index: usize) -> (r: bool)
        requires
            self@.wf(),
            index < self@.len(),
        ensures
            r == self@.segment_enabled[index as int],
    {
        self.segment_enabled[index]
    }

    pub fn is_enabled(&self) -> (r: bool)
        ensures
            r == self@.enabled,
    {
        self.enabled
    }

    pub fn focused_index(&self) -> (r: usize)
        ensures
            r == self@.focused_index,
    {
        self.focused_index
    }

    pub fn font_key(&self) -> (r: &str)
        ensures
            r@ == self@.font_key,
    {
        self.font_key.as_str()
    }

    /// Which state layer segment `index` shows. Pressed wins over the
    /// keyboard cursor, the cursor over hover; disabled segments show none.
    pub fn state_layer(&self, index: usize) -> (r: StateLayer)
        requires
            self@.wf(),
            index < self@.len(),
        ensures
            r == if !self@.enabled || !self@.segment_enabled[index as int] {
                StateLayer::Rest
            } else if self@.pressed == Some(index) {
                StateLayer::Pressed
            } else if self@.focused && self@.focused_index == index {
                StateLayer::Focused
            } else if self@.hovered == Some(index) {
                StateLayer::Hovered
            } else {
                StateLayer::Rest
            },
    {
        if !self.enabled || !self.segment_enabled[index] {
            StateLayer::Rest
        } else if self.pressed == Some(index) {
            StateLayer::Pressed
        } else if self.focused && self.focused_index == index {
            StateLayer::Focused
        } else if self.hovered == Some(index) {
            StateLayer::Hovered
        } else {
            StateLayer::Rest
        }
    }

    /// Pointer input. `hit` is the segment whose rect contains the pointer,
    /// if any. A press and its release must land in the same enabled segment
    /// for it to activate, so a drag from one segment to another cancels.
    pub fn on_pointer(&mut self, kind: PointerEventKind, hit: Option<usize>) -> (r: SegmentedOutcome)
        requires
            old(self)@.wf(),
        ensures
            final(self)@.wf(),
            final(self)@.labels == old(self)@.labels,
            final(self)@.segment_enabled == old(self)@.segment_enabled,
            final(self)@.focused_index == old(self)@.focused_index,
            final(self)@.focused == old(self)@.focused,
            final(self)@.enabled == old(self)@.enabled,
            final(self)@.mode == old(self)@.mode,
            segmented_pointer_step(old(self)@, kind, hit, final(self)@, r.redraw, r.changes@),
    {
        let ghost pre = self@;
        let mut changes: Vec<(usize, bool)> = Vec::new();
        if !self.enabled {
            let dirty = self.hovered.is_some() || self.pressed.is_some();
            self.hovered = None;
            self.pressed = None;
            return SegmentedOutcome { redraw: dirty, changes };
        }
        let at = match hit {
            Some(i) => if i < self.segment_enabled.len() && self.segment_enabled[i] {
                Some(i)
            } else {
                None
            },
            None => None,
        };
        match kind {
            PointerEventKind::Enter | PointerEventKind::Motion => {
                let changed = self.hovered != at;
                self.hovered = at;
                SegmentedOutcome { redraw: changed, changes }
            },
            PointerEventKind::Leave => {
                let dirty = self.hovered.is_some() || self.pressed.is_some();
                self.hovered = None;
                self.pressed = None;
                SegmentedOutcome { redraw: dirty, changes }
            },
            PointerEventKind::Press { button } => {
                if button == button::LEFT {
                    match at {
                        Some(i) => {
                            self.hovered = Some(i);
                            self.pressed = Some(i);
                            SegmentedOutcome { redraw: true, changes }
                        },
                        None => SegmentedOutcome { redraw: false, changes },
                    }
                } else {
                    SegmentedOutcome { redraw: false, changes }
                }
            },
            PointerEventKind::Release { button } => {
                if button == button::LEFT {
                    let was_pressed = self.pressed;
                    self.pressed = None;
                    match (was_pressed, at) {
                        (Some(p), Some(q)) => {
                            if p == q {
                                changes = self.activate(p);
                            }
                        },
                        _ => {},
                    }
                    SegmentedOutcome { redraw: was_pressed.is_some(), changes }
                } else {
                    SegmentedOutcome { redraw: false, changes }
                }
            },
            PointerEventKind::Axis => SegmentedOutcome { redraw: false, changes },
        }
    }

    /// Keyboard input: focus lands the cursor on an enabled segment,
    /// Left/Right move it, Space/Return activate the segment under it.
    pub fn on_keyboard(&mut self, event: &KeyboardEvent) -> (r: SegmentedOutcome)
        requires
            old(self)@.wf(),
        ensures
            final(self)@.wf(),
            final(self)@.labels == old(self)@.labels,
            final(self)@.segment_enabled == old(self)@.segment_enabled,
            final(self)@.hovered == old(self)@.hovered,
            final(self)@.pressed == old(self)@.pressed,
            final(self)@.enabled == old(self)@.enabled,
            final(self)@.mode == old(self)@.mode,
            segmented_key_step(old(self)@, key_intent_spec(event.kind), final(self)@, r.redraw, r.changes@),
    {
        let changes: Vec<(usize, bool)> = Vec::new();
        if !self.enabled {
            return SegmentedOutcome { redraw: false, changes };
        }
        match key_intent(&event.kind) {
            KeyIntent::Focus => {
                self.focused = true;
                let n = self.segment_enabled.len();
                let on_disabled = self.focused_index >= n || !self.segment_enabled[self.focused_index];
                if on_disabled {
                    if let Some(i) = self.first_enabled_index() {
                        proof {
                            lemma_scan_forward(self.segment_enabled@, 0);
                        }
                        self.focused_index = i;
                    }
                }
                SegmentedOutcome { redraw: true, changes }
            },
            KeyIntent::Blur => {
                self.focused = false;
                SegmentedOutcome { redraw: true, changes }
            },
            KeyIntent::Activate => {
                let changes = self.activate_focused();
                SegmentedOutcome { redraw: true, changes }
            },
            KeyIntent::Key(k) => {
                if k == key::LEFT {
                    let moved = self.move_focus(false);
                    SegmentedOutcome { redraw: moved, changes }
                } else if k == key::RIGHT {
                    let moved = self.move_focus(true);
                    SegmentedOutcome { redraw: moved, changes }
                } else {
                    SegmentedOutcome { redraw: false, changes }
                }
            },
            KeyIntent::Ignore => SegmentedOutcome { redraw: false, changes },
        }
    }

    /// The control takes focus only if it is enabled and has an enabled
    /// segment.
    pub fn focusable(&self) -> (r: bool)
        ensures
            r == (self@.enabled && scan_forward(self@.segment_enabled, 0) is Some),
    {
        self.enabled && self.first_enabled_index().is_some()
    }

    pub fn set_focused(&mut self, focused: bool)
        ensures
            final(self)@ == (SegmentedView { focused, ..old(self)@ }),
    {
        self.focused = focused;
    }
}

impl SegmentedView {
    /// The selection after programmatically setting segment `index`.
    pub open spec fn select_result(self, index: int, selected: bool) -> Seq<bool> {
        if index < 0 || index >= self.len() {
            self.selected
        } else if self.mode == SelectionMode::Single {
            if selected {
                only(self.len(), index)
            } else {
                self.selected
            }
        } else {
            self.selected.update(index, selected)
        }
    }
}

/// A pointer event on an enabled or disabled control `v`, leading to `w`.
pub open spec fn segmented_pointer_step(
    v: SegmentedView,
    kind: PointerEventKind,
    hit: Option<usize>,
    w: SegmentedView,
    redraw: bool,
    changes: Seq<(usize, bool)>,
) -> bool {
    let at = v.enabled_hit(hit);
    if !v.enabled {
        &&& w == (SegmentedView { hovered: None, pressed: None, ..v })
        &&& redraw == (v.hovered is Some || v.pressed is Some)
        &&& changes.len() == 0
    } else {
        match kind {
            PointerEventKind::Enter | PointerEventKind::Motion => {
                &&& w == (SegmentedView { hovered: at, ..v })
                &&& redraw == (v.hovered != at)
                &&& changes.len() == 0
            },
            PointerEventKind::Leave => {
                &&& w == (SegmentedView { hovered: None, pressed: None, ..v })
                &&& redraw == (v.hovered is Some || v.pressed is Some)
                &&& changes.len() == 0
            },
            PointerEventKind::Press { button } => {
                &&& if button == button::LEFT && at is Some {
                    w == (SegmentedView { hovered: at, pressed: at, ..v }) && redraw
                } else {
                    w == v && !redraw
                }
                &&& changes.len() == 0
            },
            PointerEventKind::Release { button } => if button == button::LEFT {
                &&& redraw == (v.pressed is Some)
                &&& if v.pressed is Some && v.pressed == at {
                    let (sel, ch) = v.activation(v.pressed->0 as int);
                    w == (SegmentedView { pressed: None, selected: sel, ..v }) && changes == ch
                } else {
                    w == (SegmentedView { pressed: None, ..v }) && changes.len() == 0
                }
            } else {
                w == v && !redraw && changes.len() == 0
            },
            PointerEventKind::Axis => w == v && !redraw && changes.len() == 0,
        }
    }
}

/// A keyboard intent on control `v`, leading to `w`.
pub open spec fn segmented_key_step(
    v: SegmentedView,
    intent: KeyIntent,
    w: SegmentedView,
    redraw: bool,
    changes: Seq<(usize, bool)>,
) -> bool {
    if !v.enabled {
        w == v && !redraw && changes.len() == 0
    } else {
        match intent {
            KeyIntent::Focus => {
                let on_disabled = v.focused_index >= v.len() || !v.segment_enabled[v.focused_index as int];
                &&& w == (SegmentedView {
                    focused: true,
                    focused_index: if on_disabled && scan_forward(v.segment_enabled, 0) is Some {
                        scan_forward(v.segment_enabled, 0)->0 as usize
                    } else {
                        v.focused_index
                    },
                    ..v
                })
                &&& redraw
                &&& changes.len() == 0
            },
            KeyIntent::Blur => w == (SegmentedView { focused: false, ..v }) && redraw && changes.len()
                == 0,
            KeyIntent::Activate => {
                let (sel, ch) = v.activation(v.focused_index as int);
                w == (SegmentedView { selected: sel, ..v }) && redraw && changes == ch
            },
            KeyIntent::Key(k) => if k == key::LEFT || k == key::RIGHT {
                let t = v.focus_target(k == key::RIGHT);
                &&& redraw == (t is Some)
                &&& w == (SegmentedView {
                    focused_index: match t {
                        Some(j) => j as usize,
                        None => v.focused_index,
                    },
                    ..v
                })
                &&& changes.len() == 0
            } else {
                w == v && !redraw && changes.len() == 0
            },
            KeyIntent::Ignore => w == v && !redraw && changes.len() == 0,
        }
    }
}

/// In a single-select group, activating an enabled segment leaves exactly
/// that segment selected, reports its selection last, and reports the
/// segment it took the selection from, if any, first; nothing else changes.
pub proof fn law_single_select_activation(v: SegmentedView, i: int)
    requires
        v.wf(),
        v.mode == SelectionMode::Single,
        v.can_activate(i),
    ensures
        v.activation(i).0 == only(v.len(), i),
        at_most_one(v.activation(i).0),
        !v.selected[i] ==> v.activation(i).1.last() == (i as usize, true),
        v.selected[i] ==> v.activation(i).1.len() == 0,
        forall|j: int|
            0 <= j < v.len() && j != i && v.selected[j] ==> v.activation(i).1 == seq![
                (j as usize, false),
                (i as usize, true),
            ],
{
    if v.selected[i] {
        assert(v.selected =~= only(v.len(), i)) by {
            assert forall|j: int| 0 <= j < v.len() implies v.selected[j] == (j == i) by {
                if v.selected[j] {
                    assert(j == i);
                }
            }
        }
    } else {
        assert forall|j: int|
            0 <= j < v.len() && j != i && v.selected[j] implies v.activation(i).1 == seq![
                (j as usize, false),
                (i as usize, true),
            ] by {
            lemma_scan_forward(v.selected, 0);
            let p = first_set(v.selected);
            assert(p is Some);
            let q = p.unwrap();
            assert(v.selected[q]);
            assert(q == j);
            assert(seq![(q as usize, false)] + seq![(i as usize, true)] =~= seq![
                (j as usize, false),
                (i as usize, true),
            ]);
        }
    }
}

/// In a multi-select group, activating an enabled segment twice restores
/// the selection, and the two reports are opposite.
pub proof fn law_multi_select_toggle_twice(v: SegmentedView, i: int)
    requires
        v.wf(),
        v.mode == SelectionMode::Multi,
        v.can_activate(i),
    ensures
        (SegmentedView { selected: v.activation(i).0, ..v }).activation(i).0 == v.selected,
        v.activation(i).1 == seq![(i as usize, !v.selected[i])],
        (SegmentedView { selected: v.activation(i).0, ..v }).activation(i).1 == seq![
            (i as usize, v.selected[i]),
        ],
{
    let w = SegmentedView { selected: v.activation(i).0, ..v };
    assert(w.activation(i).0 =~= v.selected);
}

/// A disabled control, a disabled segment, or an index past the end ignores
/// activation: nothing changes and nothing is reported.
pub proof fn law_disabled_segment_ignored(v: SegmentedView, i: int)
    requires
        !v.can_activate(i),
    ensures
        v.activation(i).0 == v.selected,
        v.activation(i).1.len() == 0,
{
}

/// Click and keyboard share one activation path, so they never disagree:
/// releasing the pointer on the segment it was pressed on selects and
/// reports exactly what Space or Return does on that segment.
pub proof fn law_click_and_key_agree(
    v: SegmentedView,
    i: usize,
    w1: SegmentedView,
    redraw1: bool,
    c1: Seq<(usize, bool)>,
    w2: SegmentedView,
    redraw2: bool,
    c2: Seq<(usize, bool)>,
)
    requires
        v.enabled,
        i < v.len(),
        v.segment_enabled[i as int],
        v.pressed == Some(i),
        v.focused_index == i,
        segmented_pointer_step(v, PointerEventKind::Release { button: button::LEFT }, Some(i), w1, redraw1, c1),
        segmented_key_step(v, KeyIntent::Activate, w2, redraw2, c2),
    ensures
        w1.selected == w2.selected,
        c1 == c2,
{
}

/// Programmatic selection: an index past the end changes nothing; in a
/// multi-select group the segment takes exactly the given flag and every
/// other segment keeps its own; in a single-select group selecting a segment
/// makes it the only selected one, and deselecting changes nothing.
pub proof fn law_set_selected(v: SegmentedView, i: int, b: bool)
    requires
        v.wf(),
    ensures
        v.select_result(i, b).len() == v.len(),
        !(0 <= i < v.len()) ==> v.select_result(i, b) == v.selected,
        0 <= i < v.len() && v.mode == SelectionMode::Multi ==> v.select_result(i, b)[i] == b
            && forall|j: int| 0 <= j < v.len() && j != i ==> v.select_result(i, b)[j] == v.selected[j],
        0 <= i < v.len() && v.mode == SelectionMode::Single && b ==> forall|j: int|
            0 <= j < v.len() ==> v.select_result(i, b)[j] == (j == i),
        0 <= i < v.len() && v.mode == SelectionMode::Single && !b ==> v.select_result(i, b)
            == v.selected,
{
}

} // verus!
