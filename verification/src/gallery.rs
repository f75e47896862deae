//! Keyboard focus in the widget gallery: one ring of focus stops, the
//! navigation rail first and then the page's widgets in order, walked with
//! Tab and Shift+Tab and moved by clicks and page switches.
use vstd::prelude::*;
use vstd::arithmetic::div_mod::{
    lemma_add_mod_noop, lemma_add_mod_noop_right, lemma_mod_add_multiples_vanish,
    lemma_mod_self_0, lemma_small_mod, lemma_sub_mod_noop, lemma_sub_mod_noop_right,
};

use crate::keyboard::{insertable_text, key, strip_controls, KeyboardEventKind, Modifiers};
use crate::text::{chars_of, eq_ignore_ascii_case, range_eq_ignore_ascii_case};
use crate::pointer::button;
use crate::widgets::scan::{lemma_scan_backward, scan_backward};

verus! {

/// The focus stop of the navigation rail.
pub const RAIL_FOCUS: usize = 0;

/// The stop `k` steps from `start` around a ring of `count` stops.
pub open spec fn visit(start: int, k: int, count: int, backward: bool) -> int {
    if backward {
        (start - k) % count
    } else {
        (start + k) % count
    }
}

/// Where the walk starts: the focused stop, or just before the first one.
pub open spec fn start_of(focus: Option<usize>) -> int {
    match focus {
        Some(i) => i as int,
        None => -1,
    }
}

/// The first focusable stop at step `k` or later within one full turn.
pub open spec fn first_stop(start: int, f: Seq<bool>, backward: bool, k: int) -> Option<int>
    decreases f.len() + 1 - k,
{
    if k < 1 || k > f.len() {
        None
    } else if f[visit(start, k, f.len() as int, backward)] {
        Some(visit(start, k, f.len() as int, backward))
    } else {
        first_stop(start, f, backward, k + 1)
    }
}

/// The stop a click focuses (see `GalleryFocus::click_target`).
pub open spec fn click_choice(rail_hit: bool, rail_focusable: bool, in_viewport: bool, hits: Seq<bool>) -> Option<usize> {
    if rail_hit {
        if rail_focusable {
            Some(RAIL_FOCUS)
        } else {
            None
        }
    } else if !in_viewport {
        None
    } else {
        match scan_backward(hits, hits.len() - 1) {
            Some(j) => Some((j + 1) as usize),
            None => None,
        }
    }
}

/// A change of focus: the stop that loses it and the one that gains it.
#[derive(Debug, Clone, Copy, PartialEq, Eq, Structural)]
pub struct FocusChange {
    pub blur: Option<usize>,
    pub focus: Option<usize>,
}

/// The focus ring of the gallery and the page it shows.
pub struct GalleryFocus {
    pub focus: Option<usize>,
    pub page: usize,
}

/// The number of focus stops: the rail and every widget of the page.
pub fn focus_count(children: usize) -> (r: usize)
    requires
        children < usize::MAX,
    ensures
        r == children + 1,
{
    1 + children
}

/// The focus stops in ring order: whether the rail, then each widget, can
/// take focus.
pub fn focus_stops(rail_focusable: bool, children_focusable: &Vec<bool>) -> (r: Vec<bool>)
    ensures
        r@ == seq![rail_focusable] + children_focusable@,
{
    let mut out: Vec<bool> = vec![rail_focusable];
    let mut i: usize = 0;
    while i < children_focusable.len()
        invariant
            i <= children_focusable@.len(),
            out@ == seq![rail_focusable] + children_focusable@.take(i as int),
        decreases children_focusable@.len() - i,
    {
        out.push(children_focusable[i]);
        i = i + 1;
        assert(out@ =~= seq![rail_focusable] + children_focusable@.take(i as int));
    }
    assert(children_focusable@.take(i as int) =~= children_focusable@);
    out
}

/// One step around the ring agrees with the modular walk.
proof fn lemma_step(x: int, c: int)
    requires
        c > 0,
    ensures
        (if x % c + 1 == c { 0 } else { x % c + 1 }) == (x + 1) % c,
        (if x % c == 0 { c - 1 } else { x % c - 1 }) == (x - 1) % c,
        0 <= x % c < c,
{
    lemma_add_mod_noop(x, 1, c);
    lemma_sub_mod_noop(x, 1, c);
    if c == 1 {
        assert(x % c == 0);
        assert((x + 1) % c == 0);
        assert((x - 1) % c == 0);
    } else {
        lemma_small_mod(1, c as nat);
        let r = x % c;
        if r + 1 < c {
            lemma_small_mod((r + 1) as nat, c as nat);
        } else {
            lemma_mod_self_0(c);
            assert((r + 1) % c == 0);
        }
        if r >= 1 {
            lemma_small_mod((r - 1) as nat, c as nat);
        } else {
            lemma_mod_add_multiples_vanish(-1, c);
            lemma_small_mod((c - 1) as nat, c as nat);
        }
    }
}

/// The stop the next Tab (or Shift+Tab) moves focus to: the first focusable
/// stop after the focused one in ring order, wrapping around; with nothing
/// focused the walk starts before the first stop. `None` when no stop can
/// take focus.
pub fn cycle_target(focus: Option<usize>, stops: &Vec<bool>, backward: bool) -> (r: Option<usize>)
    requires
        stops@.len() > 0,
    ensures
        match (r, first_stop(start_of(focus), stops@, backward, 1)) {
            (Some(a), Some(b)) => a == b,
            (None, None) => true,
            _ => false,
        },
{
    let count = stops.len();
    let ghost start = start_of(focus);
    let mut cur: usize = match focus {
        Some(i) => i % count,
        None => count - 1,
    };
    proof {
        if focus is None {
            lemma_mod_add_multiples_vanish(-1, count as int);
            lemma_small_mod((count - 1) as nat, count as nat);
        }
        assert(cur == visit(start, 0, count as int, backward));
    }
    let mut k: usize = 0;
    proof {
        assert(first_stop(start, stops@, backward, 1) == first_stop(start, stops@, backward, k + 1));
    }
    while k < count
        invariant
            count == stops@.len(),
            start == start_of(focus),
            0 <= k <= count,
            cur < count,
            cur == visit(start, k as int, count as int, backward),
            first_stop(start, stops@, backward, 1) == first_stop(start, stops@, backward, k + 1),
        decreases count - k,
    {
        proof {
            if backward {
                lemma_step(start - k, count as int);
                assert(start - k - 1 == start - (k + 1));
            } else {
                lemma_step(start + k, count as int);
                assert(start + k + 1 == start + (k + 1));
            }
        }
        cur = if backward {
            if cur == 0 {
                count - 1
            } else {
                cur - 1
            }
        } else {
            if cur + 1 == count {
                0
            } else {
                cur + 1
            }
        };
        k = k + 1;
        assert(cur == visit(start, k as int, count as int, backward));
        if stops[cur] {
            assert(first_stop(start, stops@, backward, k as int) == Some(cur as int));
            return Some(cur);
        }
        assert(first_stop(start, stops@, backward, k as int) == first_stop(start, stops@, backward, k + 1));
    }
    None
}

/// Within one turn every stop is visited: from any start, the stop `t` is
/// reached after at most `count` steps.
proof fn lemma_every_stop_visited(start: int, t: int, count: int, backward: bool) -> (k: int)
    requires
        0 <= t < count,
    ensures
        1 <= k <= count,
        visit(start, k, count, backward) == t,
{
    lemma_small_mod(t as nat, count as nat);
    lemma_step(0, count);
    if backward {
        let d = (start - t) % count;
        lemma_step(start - t, count);
        lemma_sub_mod_noop_right(start, start - t, count);
        assert(start - (start - t) == t);
        if d == 0 {
            lemma_mod_add_multiples_vanish(start - count, count);
            assert(count + (start - count) == start);
            assert(start - 0 == start);
            d + count
        } else {
            d
        }
    } else {
        let d = (t - start) % count;
        lemma_step(t - start, count);
        lemma_add_mod_noop_right(start, t - start, count);
        assert(start + (t - start) == t);
        if d == 0 {
            lemma_mod_add_multiples_vanish(start, count);
            assert(start + 0 == start);
            assert(start + count == count + start);
            count
        } else {
            d
        }
    }
}

/// The walk finds a stop whenever one between step `k` and the full turn
/// can take focus, and what it finds can.
proof fn lemma_first_stop_found(start: int, f: Seq<bool>, backward: bool, k: int, k2: int)
    requires
        1 <= k <= k2 <= f.len(),
        f[visit(start, k2, f.len() as int, backward)],
    ensures
        first_stop(start, f, backward, k) is Some,
    decreases k2 - k,
{
    if !f[visit(start, k, f.len() as int, backward)] {
        lemma_first_stop_found(start, f, backward, k + 1, k2);
    }
}

proof fn lemma_first_stop_focusable(start: int, f: Seq<bool>, backward: bool, k: int)
    requires
        f.len() > 0,
    ensures
        first_stop(start, f, backward, k) matches Some(s) ==> 0 <= s < f.len() && f[s],
    decreases f.len() + 1 - k,
{
    if 1 <= k <= f.len() {
        lemma_step(start + k, f.len() as int);
        lemma_step(start - k, f.len() as int);
        lemma_first_stop_focusable(start, f, backward, k + 1);
    }
}

/// Tab always lands on a stop that can take focus, and it finds one
/// whenever any stop can.
pub proof fn law_cycle_lands_on_focusable(focus: Option<usize>, f: Seq<bool>, backward: bool)
    requires
        f.len() > 0,
    ensures
        first_stop(start_of(focus), f, backward, 1) matches Some(s) ==> 0 <= s < f.len() && f[s],
        (exists|t: int| 0 <= t < f.len() && f[t]) ==> first_stop(start_of(focus), f, backward, 1) is Some,
{
    lemma_first_stop_focusable(start_of(focus), f, backward, 1);
    if exists|t: int| 0 <= t < f.len() && f[t] {
        let t = choose|t: int| 0 <= t < f.len() && f[t];
        let k = lemma_every_stop_visited(start_of(focus), t, f.len() as int, backward);
        lemma_first_stop_found(start_of(focus), f, backward, 1, k);
    }
}

impl GalleryFocus {
    /// The gallery as it opens: the first page, nothing focused.
    pub fn new() -> (r: GalleryFocus)
        ensures
            r.focus is None,
            r.page == 0,
    {
        GalleryFocus { focus: None, page: 0 }
    }

    /// Moves focus to `new_focus`: the stop losing focus is blurred and the
    /// one gaining it is focused. Returns the change, or `None` when focus
    /// stays where it is.
    pub fn set_focus(&mut self, new_focus: Option<usize>) -> (r: Option<FocusChange>)
        ensures
            final(self).focus == new_focus,
            final(self).page == old(self).page,
            new_focus == old(self).focus ==> r is None,
            new_focus != old(self).focus ==> r == Some(
                FocusChange { blur: old(self).focus, focus: new_focus },
            ),
    {
        if new_focus == self.focus {
            return None;
        }
        let change = FocusChange { blur: self.focus, focus: new_focus };
        self.focus = new_focus;
        Some(change)
    }

    /// Tab (or Shift+Tab with `backward`) over the stops `stops`: focus moves
    /// to the next focusable stop and the window repaints; with no focusable
    /// stop, Tab does nothing: focus stays, no stop is blurred or focused,
    /// and nothing repaints. Returns the focus change and whether to repaint.
    pub fn cycle_focus(&mut self, stops: &Vec<bool>, backward: bool) -> (r: (
        Option<FocusChange>,
        bool,
    ))
        requires
            stops@.len() > 0,
        ensures
            final(self).page == old(self).page,
            match first_stop(start_of(old(self).focus), stops@, backward, 1) {
                Some(s) => final(self).focus == Some(s as usize) && r.1,
                None => final(self).focus == old(self).focus && r.0 is None && !r.1,
            },
            r.0 is Some <==> final(self).focus != old(self).focus,
            r.0 matches Some(c) ==> c.blur == old(self).focus && c.focus == final(self).focus,
    {
        match cycle_target(self.focus, stops, backward) {
            Some(t) => {
                let change = self.set_focus(Some(t));
                (change, true)
            },
            None => (None, false),
        }
    }

    /// The stop a left click focuses: the rail when the pointer is over it
    /// and it can take focus; else, inside the page's viewport, the topmost
    /// (last drawn) widget under the pointer that can (`hits[i]` tells
    /// whether widget `i` can and is under it); else none.
    pub fn click_target(rail_hit: bool, rail_focusable: bool, in_viewport: bool, hits: &Vec<bool>) -> (r: Option<usize>)
        requires
            hits@.len() < usize::MAX,
        ensures
            r == click_choice(rail_hit, rail_focusable, in_viewport, hits@),
            !rail_hit && in_viewport ==> match r {
                Some(s) => 1 <= s <= hits@.len() && hits@[s - 1] && forall|j: int|
                    s <= j < hits@.len() ==> !hits@[j],
                None => forall|j: int| 0 <= j < hits@.len() ==> !hits@[j],
            },
    {
        if rail_hit {
            if rail_focusable {
                return Some(RAIL_FOCUS);
            } else {
                return None;
            }
        }
        if !in_viewport {
            return None;
        }
        proof {
            lemma_scan_backward(hits@, hits@.len() - 1);
        }
        let mut i: usize = hits.len();
        while i > 0
            invariant
                !rail_hit,
                in_viewport,
                i <= hits@.len(),
                forall|j: int| i <= j < hits@.len() ==> !hits@[j],
                scan_backward(hits@, hits@.len() - 1) == scan_backward(hits@, i - 1),
            decreases i,
        {
            if hits[i - 1] {
                return Some(i);
            }
            i = i - 1;
        }
        None
    }

    /// A left click: focus moves to what `click_target` picks.
    pub fn update_focus_from_click(&mut self, rail_hit: bool, rail_focusable: bool, in_viewport: bool, hits: &Vec<bool>) -> (r: Option<FocusChange>)
        requires
            hits@.len() < usize::MAX,
        ensures
            final(self).page == old(self).page,
            final(self).focus == click_choice(rail_hit, rail_focusable, in_viewport, hits@),
            final(self).focus == old(self).focus ==> r is None,
            final(self).focus != old(self).focus ==> r == Some(
                FocusChange { blur: old(self).focus, focus: final(self).focus },
            ),
    {
        let target = GalleryFocus::click_target(rail_hit, rail_focusable, in_viewport, hits);
        self.set_focus(target)
    }

    /// Shows another page. Its widgets are new, so focus survives only on
    /// the rail.
    pub fn set_page(&mut self, page: usize)
        ensures
            final(self).page == page,
            old(self).focus == Some(RAIL_FOCUS) ==> final(self).focus == Some(RAIL_FOCUS),
            old(self).focus != Some(RAIL_FOCUS) ==> final(self).focus is None,
    {
        self.page = page;
        if self.focus != Some(RAIL_FOCUS) {
            self.focus = None;
        }
    }

    /// Applies the destination the rail picked, if any: a different page is
    /// shown and the window repaints.
    pub fn take_nav_selection(&mut self, selection: Option<usize>) -> (r: bool)
        ensures
            r == (selection matches Some(p) && p != old(self).page),
            r ==> final(self).page == selection.unwrap() && (old(self).focus == Some(RAIL_FOCUS)
                ==> final(self).focus == Some(RAIL_FOCUS)) && (old(self).focus != Some(RAIL_FOCUS)
                ==> final(self).focus is None),
            !r ==> final(self).page == old(self).page && final(self).focus == old(self).focus,
    {
        match selection {
            Some(p) => {
                if p != self.page {
                    self.set_page(p);
                    true
                } else {
                    false
                }
            },
            None => false,
        }
    }
}

/// The window system's mouse buttons as the gallery distinguishes them.
#[derive(Debug, Clone, Copy, PartialEq, Eq, Structural)]
pub enum MouseButton {
    Left,
    Right,
    Middle,
    Other,
}

/// The Linux button code of a mouse button; `None` for the others.
pub fn button_code(b: MouseButton) -> (r: Option<u32>)
    ensures
        r == match b {
            MouseButton::Left => Some(button::LEFT),
            MouseButton::Right => Some(button::RIGHT),
            MouseButton::Middle => Some(button::MIDDLE),
            MouseButton::Other => None::<u32>,
        },
{
    match b {
        MouseButton::Left => Some(button::LEFT),
        MouseButton::Right => Some(button::RIGHT),
        MouseButton::Middle => Some(button::MIDDLE),
        MouseButton::Other => None,
    }
}

/// The window system's named keys as the gallery distinguishes them: the
/// editing keys, and every other one.
#[derive(Debug, Clone, Copy, PartialEq, Eq, Structural)]
pub enum NamedKey {
    Backspace,
    Tab,
    Enter,
    Escape,
    Home,
    ArrowLeft,
    ArrowUp,
    ArrowRight,
    ArrowDown,
    End,
    Delete,
    Other,
}

/// The keysym of an editing key; everything else (letters, digits, ...)
/// arrives as committed text instead.
pub fn keysym_from_named(k: NamedKey) -> (r: Option<u32>)
    ensures
        r == match k {
            NamedKey::Backspace => Some(key::BACKSPACE),
            NamedKey::Tab => Some(key::TAB),
            NamedKey::Enter => Some(key::RETURN),
            NamedKey::Escape => Some(key::ESCAPE),
            NamedKey::Home => Some(key::HOME),
            NamedKey::ArrowLeft => Some(key::LEFT),
            NamedKey::ArrowUp => Some(key::UP),
            NamedKey::ArrowRight => Some(key::RIGHT),
            NamedKey::ArrowDown => Some(key::DOWN),
            NamedKey::End => Some(key::END),
            NamedKey::Delete => Some(key::DELETE),
            NamedKey::Other => None::<u32>,
        },
{
    match k {
        NamedKey::Backspace => Some(key::BACKSPACE),
        NamedKey::Tab => Some(key::TAB),
        NamedKey::Enter => Some(key::RETURN),
        NamedKey::Escape => Some(key::ESCAPE),
        NamedKey::Home => Some(key::HOME),
        NamedKey::ArrowLeft => Some(key::LEFT),
        NamedKey::ArrowUp => Some(key::UP),
        NamedKey::ArrowRight => Some(key::RIGHT),
        NamedKey::ArrowDown => Some(key::DOWN),
        NamedKey::End => Some(key::END),
        NamedKey::Delete => Some(key::DELETE),
        NamedKey::Other => None,
    }
}

/// The logical key of a window-system key event.
#[derive(Debug, Clone, PartialEq, Eq)]
pub enum LogicalKey {
    Named(NamedKey),
    /// A key that produces text, by the text it produces.
    Character(String),
    Other,
}

/// What a key event asks of the gallery.
#[derive(Debug, Clone, PartialEq)]
pub enum KeyAction {
    /// Tab or Shift+Tab: move focus around the ring.
    CycleFocus { backward: bool },
    /// Ctrl+V: paste the clipboard's text.
    Paste,
    /// Deliver this event to the focused widget.
    Deliver(KeyboardEventKind),
}

pub open spec fn is_tab_press(k: LogicalKey, pressed: bool) -> bool {
    pressed && k == LogicalKey::Named(NamedKey::Tab)
}

pub open spec fn is_paste(k: LogicalKey, pressed: bool, m: Modifiers) -> bool {
    pressed && m.ctrl && (k matches LogicalKey::Character(c) && eq_ignore_ascii_case(c@, "v"@))
}

/// The editing-key event a key produces, if it is an editing key.
pub open spec fn named_event(k: LogicalKey, pressed: bool, repeat: bool) -> Option<KeyboardEventKind> {
    match k {
        LogicalKey::Named(n) => match keysym_of_named(n) {
            Some(keysym) => if pressed {
                Some(KeyboardEventKind::Press { keysym, repeat })
            } else {
                Some(KeyboardEventKind::Release { keysym })
            },
            None => None,
        },
        _ => None,
    }
}

pub open spec fn keysym_of_named(k: NamedKey) -> Option<u32> {
    match k {
        NamedKey::Backspace => Some(key::BACKSPACE),
        NamedKey::Tab => Some(key::TAB),
        NamedKey::Enter => Some(key::RETURN),
        NamedKey::Escape => Some(key::ESCAPE),
        NamedKey::Home => Some(key::HOME),
        NamedKey::ArrowLeft => Some(key::LEFT),
        NamedKey::ArrowUp => Some(key::UP),
        NamedKey::ArrowRight => Some(key::RIGHT),
        NamedKey::ArrowDown => Some(key::DOWN),
        NamedKey::End => Some(key::END),
        NamedKey::Delete => Some(key::DELETE),
        NamedKey::Other => None,
    }
}

/// The text a key event types: only on a press without Ctrl, Alt or Super
/// (Shift and Caps Lock produce the character in the first place), and only
/// what of it is insertable.
pub open spec fn typed_text(pressed: bool, text: Option<Seq<char>>, m: Modifiers) -> Option<Seq<char>> {
    match text {
        Some(t) => if pressed && !(m.ctrl || m.alt || m.logo) && strip_controls(t).len() > 0 {
            Some(strip_controls(t))
        } else {
            None
        },
        None => None,
    }
}

/// Decides what a key event does: Tab presses cycle focus (backward with
/// Shift), Ctrl+V pastes; anything else delivers its editing-key event, if
/// it is an editing key, and then the text it types, if any.
pub fn keyboard_input_actions(
    k: &LogicalKey,
    pressed: bool,
    repeat: bool,
    text: Option<&str>,
    modifiers: Modifiers,
) -> (r: Vec<KeyAction>)
    ensures
        is_tab_press(*k, pressed) ==> r@ == seq![KeyAction::CycleFocus { backward: modifiers.shift }],
        !is_tab_press(*k, pressed) && is_paste(*k, pressed, modifiers) ==> r@ == seq![KeyAction::Paste],
        !is_tab_press(*k, pressed) && !is_paste(*k, pressed, modifiers) ==> {
            let first: Seq<KeyAction> = match named_event(*k, pressed, repeat) {
                Some(e) => seq![KeyAction::Deliver(e)],
                None => Seq::empty(),
            };
            &&& forall|j: int| 0 <= j < first.len() ==> r@[j] == first[j]
            &&& match typed_text(pressed, opt_str(text), modifiers) {
                Some(t) => r@.len() == first.len() + 1 && (r@[first.len() as int] matches KeyAction::Deliver(
                    KeyboardEventKind::Commit(c),
                ) && c@ == t),
                None => r@.len() == first.len(),
            }
        },
{
    let tab = pressed && matches!(k, LogicalKey::Named(NamedKey::Tab));
    if tab {
        return vec![KeyAction::CycleFocus { backward: modifiers.shift }];
    }
    let paste = pressed && modifiers.ctrl && match k {
        LogicalKey::Character(c) => {
            let v = chars_of(c.as_str());
            proof {
                assert(v@.subrange(0, v@.len() as int) =~= v@);
            }
            range_eq_ignore_ascii_case(&v, 0, v.len(), "v")
        },
        _ => false,
    };
    if paste {
        return vec![KeyAction::Paste];
    }
    let mut out: Vec<KeyAction> = Vec::new();
    if let LogicalKey::Named(n) = k {
        if let Some(keysym) = keysym_from_named(*n) {
            let kind = if pressed {
                KeyboardEventKind::Press { keysym, repeat }
            } else {
                KeyboardEventKind::Release { keysym }
            };
            out.push(KeyAction::Deliver(kind));
        }
    }
    let shortcut = modifiers.ctrl || modifiers.alt || modifiers.logo;
    if pressed && !shortcut {
        if let Some(t) = text {
            if let Some(ins) = insertable_text(t) {
                out.push(KeyAction::Deliver(KeyboardEventKind::Commit(ins)));
            }
        }
    }
    out
}

pub open spec fn opt_str(o: Option<&str>) -> Option<Seq<char>> {
    match o {
        Some(s) => Some(s@),
        None => None,
    }
}

/// The event a paste delivers: the clipboard's insertable text as a commit,
/// or nothing when none of it is insertable.
pub fn paste_event(clipboard: &str) -> (r: Option<KeyboardEventKind>)
    ensures
        strip_controls(clipboard@).len() == 0 <==> r is None,
        r matches Some(e) ==> (e matches KeyboardEventKind::Commit(t) && t@ == strip_controls(
            clipboard@,
        )),
{
    match insertable_text(clipboard) {
        Some(t) => Some(KeyboardEventKind::Commit(t)),
        None => None,
    }
}

/// Typing: a press of any key that is neither Tab nor Ctrl+V, with Ctrl,
/// Alt and Super released, types the insertable part of its text, whatever
/// the state of Shift and Caps Lock, which produce the character in the first
/// place. A release types nothing, and neither does a press with Ctrl, Alt or
/// Super held.
pub proof fn law_typing_ignores_shift_and_caps_lock(k: LogicalKey, t: Seq<char>, m: Modifiers)
    requires
        k != LogicalKey::Named(NamedKey::Tab),
        !m.ctrl,
        !m.alt,
        !m.logo,
        strip_controls(t).len() > 0,
    ensures
        !is_tab_press(k, true),
        !is_paste(k, true, m),
        typed_text(true, Some(t), m) == Some(strip_controls(t)),
        typed_text(true, Some(t), Modifiers { shift: !m.shift, caps_lock: !m.caps_lock, ..m })
            == Some(strip_controls(t)),
        typed_text(false, Some(t), m) is None,
        typed_text(true, Some(t), Modifiers { ctrl: true, ..m }) is None,
        typed_text(true, Some(t), Modifiers { alt: true, ..m }) is None,
        typed_text(true, Some(t), Modifiers { logo: true, ..m }) is None,
{
}

/// Tab takes the first focusable stop in walking order: the stop it lands
/// on is reached after some number of steps around the ring, and every stop
/// reached in fewer steps cannot take focus.
pub proof fn law_cycle_takes_first_focusable(start: int, f: Seq<bool>, backward: bool, k: int)
    requires
        f.len() > 0,
        1 <= k,
    ensures
        first_stop(start, f, backward, k) matches Some(s) ==> exists|m: int|
            k <= m <= f.len() && visit(start, m, f.len() as int, backward) == s && f[s] && forall|q: int|
                k <= q < m ==> !f[#[trigger] visit(start, q, f.len() as int, backward)],
        first_stop(start, f, backward, k) is None ==> forall|q: int|
            k <= q <= f.len() ==> !f[#[trigger] visit(start, q, f.len() as int, backward)],
    decreases f.len() + 1 - k,
{
    if k <= f.len() {
        lemma_step(start + k, f.len() as int);
        lemma_step(start - k, f.len() as int);
        law_cycle_takes_first_focusable(start, f, backward, k + 1);
        if !f[visit(start, k, f.len() as int, backward)] {
            if first_stop(start, f, backward, k) is Some {
                let s = first_stop(start, f, backward, k)->0;
                let m = choose|m: int|
                    k + 1 <= m <= f.len() && visit(start, m, f.len() as int, backward) == s && f[s]
                        && forall|q: int| k + 1 <= q < m ==> !f[#[trigger] visit(start, q, f.len() as int, backward)];
                assert forall|q: int| k <= q < m implies !f[#[trigger] visit(start, q, f.len() as int, backward)] by {
                    if q == k {
                    }
                }
            }
        } else {
            assert(visit(start, k, f.len() as int, backward) == visit(start, k, f.len() as int, backward));
        }
    }
}

} // verus!
