//! The editing model of a single-line filled text field: a text buffer with
//! one cursor (no selection), edited by committed text and the editing keys.
//!
//! The cursor sits between characters; it is kept as a character index, so
//! it can never land inside a multi-byte UTF-8 sequence. Its byte offset, the
//! position the renderer measures up to, is derived from it.
use vstd::prelude::*;

use crate::keyboard::{
    insertable_text, key, strip_controls, text_is_space, KeyboardEvent, KeyboardEventKind,
};
use crate::pointer::{button, PointerEventKind};

verus! {

/// Number of bytes in the UTF-8 encoding of `c`.
pub open spec fn char_width(c: char) -> nat {
    if (c as u32) < 0x80 {
        1
    } else if (c as u32) < 0x800 {
        2
    } else if (c as u32) < 0x10000 {
        3
    } else {
        4
    }
}

/// Number of bytes in the UTF-8 encoding of `s`.
pub open spec fn utf8_len(s: Seq<char>) -> nat
    decreases s.len(),
{
    if s.len() == 0 {
        0
    } else {
        utf8_len(s.drop_last()) + char_width(s.last())
    }
}

/// `char::len_utf8`.
pub fn len_utf8(c: char) -> (r: usize)
    ensures
        r == char_width(c),
{
    let v = c as u32;
    if v < 0x80 {
        1
    } else if v < 0x800 {
        2
    } else if v < 0x10000 {
        3
    } else {
        4
    }
}

/// `s` with `ins` placed before its `at`-th character.
pub open spec fn insert_at(s: Seq<char>, at: int, ins: Seq<char>) -> Seq<char> {
    s.take(at) + ins + s.skip(at)
}

/// `s` without its `at`-th character.
pub open spec fn remove_at(s: Seq<char>, at: int) -> Seq<char> {
    s.take(at) + s.skip(at + 1)
}

/// What a keyboard or pointer event did to the field: whether it needs a
/// repaint, and whether the text changed (the caller then reports the new
/// text to whoever listens for edits).
#[derive(Debug, Clone, Copy, PartialEq, Eq)]
pub struct EditOutcome {
    pub redraw: bool,
    pub text_changed: bool,
}

pub struct TextField {
    text: String,
    /// Number of characters before the cursor.
    cursor: usize,
    font_key: String,
    enabled: bool,
    hovered: bool,
    focused: bool,
}

impl TextField {
    pub closed spec fn text_spec(&self) -> Seq<char> {
        self.text@
    }

    /// The cursor as a character index.
    pub closed spec fn cursor_spec(&self) -> nat {
        self.cursor as nat
    }

    pub closed spec fn font_key_spec(&self) -> Seq<char> {
        self.font_key@
    }

    pub closed spec fn enabled_spec(&self) -> bool {
        self.enabled
    }

    pub closed spec fn hovered_spec(&self) -> bool {
        self.hovered
    }

    pub closed spec fn focused_spec(&self) -> bool {
        self.focused
    }

    /// The cursor lies within the text, and the text is short enough that
    /// every byte offset into it fits in a `usize`.
    pub closed spec fn wf(&self) -> bool {
        &&& self.cursor <= self.text@.len()
        &&& utf8_len(self.text@) <= usize::MAX
    }

    /// An empty, enabled field with its cursor at the start.
    pub fn new() -> (r: Self)
        ensures
            r.wf(),
            r.text_spec() == Seq::<char>::empty(),
            r.cursor_spec() == 0,
            r.font_key_spec() == "noto_sans"@,
            r.enabled_spec(),
            !r.hovered_spec(),
            !r.focused_spec(),
    {
        Self {
            text: String::new(),
            cursor: 0,
            font_key: String::from_str("noto_sans"),
            enabled: true,
            hovered: false,
            focused: false,
        }
    }

    /// Key of a font registered with the renderer; defaults to `noto_sans`.
    pub fn font(self, key: &str) -> (r: Self)
        requires
            self.wf(),
        ensures
            r.wf(),
            r.font_key_spec() == key@,
            r.text_spec() == self.text_spec(),
            r.cursor_spec() == self.cursor_spec(),
            r.enabled_spec() == self.enabled_spec(),
            r.hovered_spec() == self.hovered_spec(),
            r.focused_spec() == self.focused_spec(),
    {
        Self { font_key: String::from_str(key), ..self }
    }

    pub fn font_key(&self) -> (r: &str)
        ensures
            r@ == self.font_key_spec(),
    {
        self.font_key.as_str()
    }

    pub fn enabled(self, enabled: bool) -> (r: Self)
        requires
            self.wf(),
        ensures
            r.wf(),
            r.enabled_spec() == enabled,
            r.text_spec() == self.text_spec(),
            r.cursor_spec() == self.cursor_spec(),
            r.font_key_spec() == self.font_key_spec(),
            r.hovered_spec() == self.hovered_spec(),
            r.focused_spec() == self.focused_spec(),
    {
        Self { enabled, ..self }
    }

    pub fn set_enabled(&mut self, enabled: bool)
        requires
            old(self).wf(),
        ensures
            final(self).wf(),
            final(self).enabled_spec() == enabled,
            final(self).text_spec() == old(self).text_spec(),
            final(self).cursor_spec() == old(self).cursor_spec(),
            final(self).font_key_spec() == old(self).font_key_spec(),
            final(self).hovered_spec() == old(self).hovered_spec(),
            final(self).focused_spec() == old(self).focused_spec(),
    {
        self.enabled = enabled;
    }

    pub fn is_enabled(&self) -> (r: bool)
        ensures
            r == self.enabled_spec(),
    {
        self.enabled
    }

    pub fn is_hovered(&self) -> (r: bool)
        ensures
            r == self.hovered_spec(),
    {
        self.hovered
    }

    pub fn is_focused(&self) -> (r: bool)
        ensures
            r == self.focused_spec(),
    {
        self.focused
    }

    /// Starting text; the cursor is placed at its end.
    pub fn text(self, text: &str) -> (r: Option<Self>)
        requires
            self.wf(),
        ensures
            r is Some <==> utf8_len(text@) <= usize::MAX,
            r matches Some(f) ==> {
                &&& f.wf()
                &&& f.text_spec() == text@
                &&& f.cursor_spec() == text@.len()
                &&& f.font_key_spec() == self.font_key_spec()
                &&& f.enabled_spec() == self.enabled_spec()
                &&& f.hovered_spec() == self.hovered_spec()
                &&& f.focused_spec() == self.focused_spec()
            },
    {
        let n = text.unicode_len();
        if utf8_byte_len(text, n).is_none() {
            return None;
        }
        Some(Self { text: String::from_str(text), cursor: n, ..self })
    }

    pub fn text_value(&self) -> (r: &str)
        ensures
            r@ == self.text_spec(),
    {
        self.text.as_str()
    }

    /// The cursor's byte offset into the UTF-8 text.
    pub fn cursor(&self) -> (r: usize)
        requires
            self.wf(),
        ensures
            r == utf8_len(self.text_spec().take(self.cursor_spec() as int)),
    {
        let prefix = self.text.as_str().substring_char(0, self.cursor);
        proof {
            lemma_utf8_len_prefix_le(self.text@, self.cursor as int);
        }
        utf8_byte_len(prefix, self.cursor).unwrap()
    }

    /// Moves the cursor to byte offset `byte`, if that offset is a character
    /// boundary of the text; otherwise nothing changes.
    pub fn set_cursor(&mut self, byte: usize) -> (moved: bool)
        requires
            old(self).wf(),
        ensures
            final(self).wf(),
            final(self).text_spec() == old(self).text_spec(),
            final(self).font_key_spec() == old(self).font_key_spec(),
            final(self).enabled_spec() == old(self).enabled_spec(),
            final(self).hovered_spec() == old(self).hovered_spec(),
            final(self).focused_spec() == old(self).focused_spec(),
            moved <==> exists|k: int|
                0 <= k <= old(self).text_spec().len() && #[trigger] utf8_len(
                    old(self).text_spec().take(k),
                ) == byte,
            moved ==> utf8_len(final(self).text_spec().take(final(self).cursor_spec() as int))
                == byte,
            !moved ==> final(self).cursor_spec() == old(self).cursor_spec(),
    {
        let n = self.text.unicode_len();
        match char_index_of_byte(self.text.as_str(), n, byte) {
            Some(k) => {
                self.cursor = k;
                true
            },
            None => false,
        }
    }

    /// Replaces the text and keeps the cursor where it was, pulled back to
    /// the end of the new text if it would lie past it.
    fn replace_text(&mut self, text: String, cursor: usize)
        requires
            cursor <= text@.len(),
            utf8_len(text@) <= usize::MAX,
        ensures
            final(self).wf(),
            final(self).text_spec() == text@,
            final(self).cursor_spec() == cursor,
            final(self).font_key_spec() == old(self).font_key_spec(),
            final(self).enabled_spec() == old(self).enabled_spec(),
            final(self).hovered_spec() == old(self).hovered_spec(),
            final(self).focused_spec() == old(self).focused_spec(),
    {
        self.text = text;
        self.cursor = cursor;
    }

    /// Inserts the insertable part of `text` at the cursor and moves the
    /// cursor past it. Control characters are filtered again here rather
    /// than trusted to have been removed by the backend: a control character
    /// in the buffer is unrecoverable. Returns whether the text changed; it
    /// does not when nothing insertable remains, or when the result would
    /// be too long to address by byte offsets.
    pub fn insert(&mut self, text: &str) -> (changed: bool)
        requires
            old(self).wf(),
        ensures
            final(self).wf(),
            final(self).font_key_spec() == old(self).font_key_spec(),
            final(self).enabled_spec() == old(self).enabled_spec(),
            final(self).hovered_spec() == old(self).hovered_spec(),
            final(self).focused_spec() == old(self).focused_spec(),
            ({
                let ins = strip_controls(text@);
                let new_text = insert_at(
                    old(self).text_spec(),
                    old(self).cursor_spec() as int,
                    ins,
                );
                &&& changed <==> ins.len() > 0 && utf8_len(new_text) <= usize::MAX
                &&& changed ==> final(self).text_spec() == new_text && final(self).cursor_spec()
                    == old(self).cursor_spec() + ins.len()
                &&& !changed ==> final(self).text_spec() == old(self).text_spec()
                    && final(self).cursor_spec() == old(self).cursor_spec()
            }),
    {
        let ins = match insertable_text(text) {
            Some(t) => t,
            None => return false,
        };
        let n = self.text.unicode_len();
        let prefix = self.text.as_str().substring_char(0, self.cursor);
        let suffix = self.text.as_str().substring_char(self.cursor, n);
        let mut new_text = String::from_str(prefix);
        new_text.append(ins.as_str());
        let new_cursor_len = new_text.unicode_len();
        new_text.append(suffix);
        proof {
            assert(self.text@.subrange(0, self.cursor as int) == self.text@.take(
                self.cursor as int,
            ));
            assert(self.text@.subrange(self.cursor as int, n as int) == self.text@.skip(
                self.cursor as int,
            ));
        }
        let total = new_text.unicode_len();
        if utf8_byte_len(new_text.as_str(), total).is_none() {
            return false;
        }
        self.replace_text(new_text, new_cursor_len);
        true
    }

    /// Removes the character before the cursor.
    pub fn backspace(&mut self) -> (changed: bool)
        requires
            old(self).wf(),
        ensures
            final(self).wf(),
            final(self).font_key_spec() == old(self).font_key_spec(),
            final(self).enabled_spec() == old(self).enabled_spec(),
            final(self).hovered_spec() == old(self).hovered_spec(),
            final(self).focused_spec() == old(self).focused_spec(),
            changed <==> old(self).cursor_spec() > 0,
            changed ==> final(self).text_spec() == remove_at(
                old(self).text_spec(),
                old(self).cursor_spec() - 1,
            ) && final(self).cursor_spec() == old(self).cursor_spec() - 1,
            !changed ==> final(self).text_spec() == old(self).text_spec()
                && final(self).cursor_spec() == old(self).cursor_spec(),
    {
        if self.cursor == 0 {
            return false;
        }
        let at = self.cursor - 1;
        self.remove_char(at);
        true
    }

    /// Removes the character after the cursor.
    pub fn delete_forward(&mut self) -> (changed: bool)
        requires
            old(self).wf(),
        ensures
            final(self).wf(),
            final(self).font_key_spec() == old(self).font_key_spec(),
            final(self).enabled_spec() == old(self).enabled_spec(),
            final(self).hovered_spec() == old(self).hovered_spec(),
            final(self).focused_spec() == old(self).focused_spec(),
            changed <==> old(self).cursor_spec() < old(self).text_spec().len(),
            changed ==> final(self).text_spec() == remove_at(
                old(self).text_spec(),
                old(self).cursor_spec() as int,
            ),
            final(self).cursor_spec() == old(self).cursor_spec(),
            !changed ==> final(self).text_spec() == old(self).text_spec(),
    {
        let n = self.text.unicode_len();
        if self.cursor >= n {
            return false;
        }
        let at = self.cursor;
        self.remove_char(at);
        true
    }

    /// Removes the `at`-th character, leaving the cursor on the same side
    /// of every remaining character.
    fn remove_char(&mut self, at: usize)
        requires
            old(self).wf(),
            at < old(self).text_spec().len(),
            at == old(self).cursor_spec() || at + 1 == old(self).cursor_spec(),
        ensures
            final(self).wf(),
            final(self).text_spec() == remove_at(old(self).text_spec(), at as int),
            final(self).cursor_spec() == at,
            final(self).font_key_spec() == old(self).font_key_spec(),
            final(self).enabled_spec() == old(self).enabled_spec(),
            final(self).hovered_spec() == old(self).hovered_spec(),
            final(self).focused_spec() == old(self).focused_spec(),
    {
        let n = self.text.unicode_len();
        let prefix = self.text.as_str().substring_char(0, at);
        let suffix = self.text.as_str().substring_char(at + 1, n);
        let mut new_text = String::from_str(prefix);
        new_text.append(suffix);
        proof {
            let s = self.text@;
            assert(s.subrange(0, at as int) == s.take(at as int));
            assert(s.subrange(at + 1, n as int) == s.skip(at + 1));
            lemma_utf8_len_remove(s, at as int);
        }
        self.replace_text(new_text, at);
    }

    pub fn move_left(&mut self) -> (moved: bool)
        requires
            old(self).wf(),
        ensures
            final(self).wf(),
            final(self).text_spec() == old(self).text_spec(),
            final(self).font_key_spec() == old(self).font_key_spec(),
            final(self).enabled_spec() == old(self).enabled_spec(),
            final(self).hovered_spec() == old(self).hovered_spec(),
            final(self).focused_spec() == old(self).focused_spec(),
            moved <==> old(self).cursor_spec() > 0,
            final(self).cursor_spec() == if moved {
                old(self).cursor_spec() - 1
            } else {
                old(self).cursor_spec() as int
            },
    {
        if self.cursor == 0 {
            return false;
        }
        self.cursor = self.cursor - 1;
        true
    }

    pub fn move_right(&mut self) -> (moved: bool)
        requires
            old(self).wf(),
        ensures
            final(self).wf(),
            final(self).text_spec() == old(self).text_spec(),
            final(self).font_key_spec() == old(self).font_key_spec(),
            final(self).enabled_spec() == old(self).enabled_spec(),
            final(self).hovered_spec() == old(self).hovered_spec(),
            final(self).focused_spec() == old(self).focused_spec(),
            moved <==> old(self).cursor_spec() < old(self).text_spec().len(),
            final(self).cursor_spec() == if moved {
                old(self).cursor_spec() + 1
            } else {
                old(self).cursor_spec() + 0
            },
    {
        let n = self.text.unicode_len();
        if self.cursor >= n {
            return false;
        }
        self.cursor = self.cursor + 1;
        true
    }

    pub fn move_home(&mut self) -> (moved: bool)
        requires
            old(self).wf(),
        ensures
            final(self).wf(),
            final(self).text_spec() == old(self).text_spec(),
            final(self).font_key_spec() == old(self).font_key_spec(),
            final(self).enabled_spec() == old(self).enabled_spec(),
            final(self).hovered_spec() == old(self).hovered_spec(),
            final(self).focused_spec() == old(self).focused_spec(),
            moved <==> old(self).cursor_spec() > 0,
            final(self).cursor_spec() == 0,
    {
        if self.cursor == 0 {
            return false;
        }
        self.cursor = 0;
        true
    }

    pub fn move_end(&mut self) -> (moved: bool)
        requires
            old(self).wf(),
        ensures
            final(self).wf(),
            final(self).text_spec() == old(self).text_spec(),
            final(self).font_key_spec() == old(self).font_key_spec(),
            final(self).enabled_spec() == old(self).enabled_spec(),
            final(self).hovered_spec() == old(self).hovered_spec(),
            final(self).focused_spec() == old(self).focused_spec(),
            moved <==> old(self).cursor_spec() < old(self).text_spec().len(),
            final(self).cursor_spec() == old(self).text_spec().len(),
    {
        let n = self.text.unicode_len();
        if self.cursor >= n {
            return false;
        }
        self.cursor = n;
        true
    }

    /// Keyboard input: focus and blur, committed text inserted at the
    /// cursor, and the editing keys. A disabled field ignores everything.
    pub fn on_keyboard(&mut self, event: &KeyboardEvent) -> (r: EditOutcome)
        requires
            old(self).wf(),
        ensures
            final(self).wf(),
            final(self).font_key_spec() == old(self).font_key_spec(),
            final(self).enabled_spec() == old(self).enabled_spec(),
            final(self).hovered_spec() == old(self).hovered_spec(),
            !old(self).enabled_spec() ==> r == (EditOutcome { redraw: false, text_changed: false })
                && final(self).text_spec() == old(self).text_spec() && final(self).cursor_spec()
                == old(self).cursor_spec() && final(self).focused_spec()
                == old(self).focused_spec(),
            old(self).enabled_spec() ==> text_field_key_step(
                old(self).text_spec(),
                old(self).cursor_spec(),
                old(self).focused_spec(),
                event.kind,
                final(self).text_spec(),
                final(self).cursor_spec(),
                final(self).focused_spec(),
                r,
            ),
    {
        if !self.enabled {
            return EditOutcome { redraw: false, text_changed: false };
        }
        match &event.kind {
            KeyboardEventKind::Focus => {
                self.focused = true;
                EditOutcome { redraw: true, text_changed: false }
            },
            KeyboardEventKind::Blur => {
                self.focused = false;
                EditOutcome { redraw: true, text_changed: false }
            },
            KeyboardEventKind::Commit(text) => {
                let changed = self.insert(text.as_str());
                EditOutcome { redraw: changed, text_changed: changed }
            },
            KeyboardEventKind::Press { keysym, .. } => {
                let k = *keysym;
                if k == key::BACKSPACE {
                    let changed = self.backspace();
                    EditOutcome { redraw: changed, text_changed: changed }
                } else if k == key::DELETE {
                    let changed = self.delete_forward();
                    EditOutcome { redraw: changed, text_changed: changed }
                } else if k == key::LEFT {
                    EditOutcome { redraw: self.move_left(), text_changed: false }
                } else if k == key::RIGHT {
                    EditOutcome { redraw: self.move_right(), text_changed: false }
                } else if k == key::HOME {
                    EditOutcome { redraw: self.move_home(), text_changed: false }
                } else if k == key::END {
                    EditOutcome { redraw: self.move_end(), text_changed: false }
                } else {
                    EditOutcome { redraw: false, text_changed: false }
                }
            },
            KeyboardEventKind::Release { .. } => EditOutcome { redraw: false, text_changed: false },
            KeyboardEventKind::Preedit { .. } => EditOutcome { redraw: false, text_changed: false },
        }
    }

    /// Pointer input, with `inside` telling whether the pointer is over the
    /// field. Tracks hover; a left press inside asks for a repaint.
    pub fn on_pointer(&mut self, kind: PointerEventKind, inside: bool) -> (redraw: bool)
        requires
            old(self).wf(),
        ensures
            final(self).wf(),
            final(self).text_spec() == old(self).text_spec(),
            final(self).cursor_spec() == old(self).cursor_spec(),
            final(self).font_key_spec() == old(self).font_key_spec(),
            final(self).enabled_spec() == old(self).enabled_spec(),
            final(self).focused_spec() == old(self).focused_spec(),
            !old(self).enabled_spec() ==> redraw == old(self).hovered_spec()
                && !final(self).hovered_spec(),
            old(self).enabled_spec() ==> match kind {
                PointerEventKind::Enter | PointerEventKind::Motion => {
                    &&& final(self).hovered_spec() == inside
                    &&& redraw == (old(self).hovered_spec() != inside)
                },
                PointerEventKind::Leave => {
                    &&& !final(self).hovered_spec()
                    &&& redraw == old(self).hovered_spec()
                },
                PointerEventKind::Press { button } => {
                    &&& final(self).hovered_spec() == old(self).hovered_spec()
                    &&& redraw == (button == button::LEFT && inside)
                },
                _ => {
                    &&& final(self).hovered_spec() == old(self).hovered_spec()
                    &&& !redraw
                },
            },
    {
        if !self.enabled {
            let dirty = self.hovered;
            self.hovered = false;
            return dirty;
        }
        match kind {
            PointerEventKind::Enter | PointerEventKind::Motion => {
                let changed = self.hovered != inside;
                self.hovered = inside;
                changed
            },
            PointerEventKind::Leave => {
                let dirty = self.hovered;
                self.hovered = false;
                dirty
            },
            PointerEventKind::Press { button } => button == button::LEFT && inside,
            _ => false,
        }
    }

    pub fn focusable(&self) -> (r: bool)
        ensures
            r == self.enabled_spec(),
    {
        self.enabled
    }

    pub fn set_focused(&mut self, focused: bool)
        requires
            old(self).wf(),
        ensures
            final(self).wf(),
            final(self).focused_spec() == focused,
            final(self).text_spec() == old(self).text_spec(),
            final(self).cursor_spec() == old(self).cursor_spec(),
            final(self).font_key_spec() == old(self).font_key_spec(),
            final(self).enabled_spec() == old(self).enabled_spec(),
            final(self).hovered_spec() == old(self).hovered_spec(),
    {
        self.focused = focused;
    }
}

/// One keyboard event on an enabled field with text `t`, cursor `c` and
/// focus `f`, leading to text `t2`, cursor `c2`, focus `f2` and outcome `r`.
pub open spec fn text_field_key_step(
    t: Seq<char>,
    c: nat,
    f: bool,
    kind: KeyboardEventKind,
    t2: Seq<char>,
    c2: nat,
    f2: bool,
    r: EditOutcome,
) -> bool {
    match kind {
        KeyboardEventKind::Focus => f2 && t2 == t && c2 == c && r == EditOutcome {
            redraw: true,
            text_changed: false,
        },
        KeyboardEventKind::Blur => !f2 && t2 == t && c2 == c && r == EditOutcome {
            redraw: true,
            text_changed: false,
        },
        KeyboardEventKind::Commit(text) => {
            let ins = strip_controls(text@);
            let nt = insert_at(t, c as int, ins);
            let ok = ins.len() > 0 && utf8_len(nt) <= usize::MAX;
            &&& f2 == f
            &&& r == EditOutcome { redraw: ok, text_changed: ok }
            &&& ok ==> t2 == nt && c2 == c + ins.len()
            &&& !ok ==> t2 == t && c2 == c
        },
        KeyboardEventKind::Press { keysym, .. } => {
            &&& f2 == f
            &&& if keysym == key::BACKSPACE {
                if c > 0 {
                    t2 == remove_at(t, c - 1) && c2 == c - 1 && r == EditOutcome {
                        redraw: true,
                        text_changed: true,
                    }
                } else {
                    t2 == t && c2 == c && r == EditOutcome { redraw: false, text_changed: false }
                }
            } else if keysym == key::DELETE {
                if c < t.len() {
                    t2 == remove_at(t, c as int) && c2 == c && r == EditOutcome {
                        redraw: true,
                        text_changed: true,
                    }
                } else {
                    t2 == t && c2 == c && r == EditOutcome { redraw: false, text_changed: false }
                }
            } else if keysym == key::LEFT {
                t2 == t && !r.text_changed && r.redraw == (c > 0) && c2 == if c > 0 {
                    c - 1
                } else {
                    c as int
                }
            } else if keysym == key::RIGHT {
                t2 == t && !r.text_changed && r.redraw == (c < t.len()) && c2 == if c < t.len() {
                    c + 1
                } else {
                    c + 0
                }
            } else if keysym == key::HOME {
                t2 == t && !r.text_changed && r.redraw == (c > 0) && c2 == 0
            } else if keysym == key::END {
                t2 == t && !r.text_changed && r.redraw == (c < t.len()) && c2 == t.len()
            } else {
                t2 == t && c2 == c && r == EditOutcome { redraw: false, text_changed: false }
            }
        },
        _ => f2 == f && t2 == t && c2 == c && r == EditOutcome {
            redraw: false,
            text_changed: false,
        },
    }
}

/// The number of characters of `s` (which has `n` of them) whose UTF-8
/// encoding is exactly `byte` bytes long, if there is such a prefix.
fn char_index_of_byte(s: &str, n: usize, byte: usize) -> (r: Option<usize>)
    requires
        n == s@.len(),
        utf8_len(s@) <= usize::MAX,
    ensures
        r is Some <==> exists|k: int| 0 <= k <= s@.len() && #[trigger] utf8_len(s@.take(k)) == byte,
        r matches Some(k) ==> k <= n && utf8_len(s@.take(k as int)) == byte,
{
    let mut k: usize = 0;
    let mut acc: usize = 0;
    proof {
        lemma_utf8_len_prefix_le(s@, n as int);
        assert(s@.take(n as int) == s@);
    }
    while k <= n
        invariant
            n == s@.len(),
            k <= n + 1,
            k <= n ==> acc == utf8_len(s@.take(k as int)),
            utf8_len(s@) <= usize::MAX,
            forall|j: int| 0 <= j < k ==> #[trigger] utf8_len(s@.take(j)) != byte,
            forall|j: int, i: int|
                0 <= j <= i <= n ==> #[trigger] utf8_len(s@.take(j)) <= #[trigger] utf8_len(
                    s@.take(i),
                ),
        decreases n + 1 - k,
    {
        if acc == byte {
            return Some(k);
        }
        if acc > byte {
            proof {
                assert forall|j: int| 0 <= j <= n implies #[trigger] utf8_len(s@.take(j))
                    != byte by {
                    if j >= k {
                        assert(utf8_len(s@.take(k as int)) <= utf8_len(s@.take(j)));
                    }
                }
            }
            return None;
        }
        if k == n {
            return None;
        }
        let c = s.get_char(k);
        proof {
            assert(s@.take(k + 1).drop_last() == s@.take(k as int));
            lemma_utf8_len_prefix_le(s@, k + 1);
        }
        acc = acc + len_utf8(c);
        k = k + 1;
    }
    None
}

/// The UTF-8 length of `s`, whose character count is `n`, or `None` when it
/// does not fit in a `usize`.
fn utf8_byte_len(s: &str, n: usize) -> (r: Option<usize>)
    requires
        n == s@.len(),
    ensures
        r is Some <==> utf8_len(s@) <= usize::MAX,
        r matches Some(v) ==> v == utf8_len(s@),
{
    let mut i: usize = 0;
    let mut acc: usize = 0;
    while i < n
        invariant
            n == s@.len(),
            i <= n,
            acc == utf8_len(s@.take(i as int)),
        decreases n - i,
    {
        let c = s.get_char(i);
        assert(s@.take(i + 1).drop_last() == s@.take(i as int));
        let w = len_utf8(c);
        if acc > usize::MAX - w {
            proof {
                lemma_utf8_len_prefix_le(s@, i + 1);
                assert(s@.take(n as int) == s@);
            }
            return None;
        }
        acc = acc + w;
        i = i + 1;
    }
    assert(s@.take(n as int) == s@);
    Some(acc)
}

/// The byte length of a prefix grows with the prefix.
pub proof fn lemma_utf8_len_prefix_le(s: Seq<char>, k: int)
    requires
        0 <= k <= s.len(),
    ensures
        utf8_len(s.take(k)) <= utf8_len(s),
        forall|j: int, i: int|
            0 <= j <= i <= k ==> #[trigger] utf8_len(s.take(j)) <= #[trigger] utf8_len(s.take(i)),
    decreases s.len() - k,
{
    if k < s.len() {
        lemma_utf8_len_prefix_le(s, k + 1);
        assert(s.take(k + 1).drop_last() == s.take(k));
    } else {
        assert(s.take(k) == s);
    }
    assert forall|j: int, i: int| 0 <= j <= i <= k implies #[trigger] utf8_len(s.take(j))
        <= #[trigger] utf8_len(s.take(i)) by {
        lemma_utf8_len_take_mono(s, j, i);
    }
}

proof fn lemma_utf8_len_take_mono(s: Seq<char>, j: int, i: int)
    requires
        0 <= j <= i <= s.len(),
    ensures
        utf8_len(s.take(j)) <= utf8_len(s.take(i)),
    decreases i - j,
{
    if j < i {
        lemma_utf8_len_take_mono(s, j, i - 1);
        assert(s.take(i).drop_last() == s.take(i - 1));
    }
}

/// The byte length of a concatenation is the sum of the byte lengths.
pub proof fn lemma_utf8_len_concat(a: Seq<char>, b: Seq<char>)
    ensures
        utf8_len(a + b) == utf8_len(a) + utf8_len(b),
    decreases b.len(),
{
    if b.len() == 0 {
        assert(a + b == a);
    } else {
        lemma_utf8_len_concat(a, b.drop_last());
        assert((a + b).drop_last() == a + b.drop_last());
    }
}

/// Removing a character never makes the text longer in bytes.
proof fn lemma_utf8_len_remove(s: Seq<char>, at: int)
    requires
        0 <= at < s.len(),
    ensures
        utf8_len(remove_at(s, at)) <= utf8_len(s),
{
    lemma_utf8_len_concat(s.take(at), s.skip(at + 1));
    lemma_utf8_len_concat(s.take(at + 1), s.skip(at + 1));
    assert(s.take(at + 1) + s.skip(at + 1) == s);
    lemma_utf8_len_take_mono(s, at, at + 1);
}

/// Backspace right after typing a character takes exactly that character
/// away: the text is what it was, and the cursor is back where typing began.
pub proof fn law_backspace_undoes_insert(s: Seq<char>, at: int, c: char)
    requires
        0 <= at <= s.len(),
    ensures
        remove_at(insert_at(s, at, seq![c]), at + 1 - 1) == s,
        insert_at(s, at, seq![c]).len() == s.len() + 1,
{
    assert(remove_at(insert_at(s, at, seq![c]), at) =~= s);
}

/// Deleting forward from the cursor and deleting backward from one place to
/// its right remove the same character.
pub proof fn law_delete_forward_matches_backspace(s: Seq<char>, at: int)
    requires
        0 <= at < s.len(),
    ensures
        remove_at(s, at) == remove_at(s, (at + 1) - 1),
        remove_at(s, at).len() + 1 == s.len(),
{
}

/// Inserting text keeps the characters before and after the cursor, with
/// the inserted ones between them.
pub proof fn law_insert_keeps_surroundings(s: Seq<char>, at: int, ins: Seq<char>)
    requires
        0 <= at <= s.len(),
    ensures
        insert_at(s, at, ins).take(at) == s.take(at),
        insert_at(s, at, ins).subrange(at, at + ins.len()) == ins,
        insert_at(s, at, ins).skip(at + ins.len()) == s.skip(at),
{
    assert(insert_at(s, at, ins).take(at) =~= s.take(at));
    assert(insert_at(s, at, ins).subrange(at, at + ins.len()) =~= ins);
    assert(insert_at(s, at, ins).skip(at + ins.len()) =~= s.skip(at));
}

} // verus!
