//! Keyboard events as delivered to widgets, and the filter that decides
//! which committed text may be inserted into an editable field.
use vstd::prelude::*;

pub mod key;

verus! {

/// Whether `c` is a Unicode control character (general category Cc).
pub open spec fn is_control_spec(c: char) -> bool {
    (c as u32) <= 0x1f || (0x7f <= (c as u32) && (c as u32) <= 0x9f)
}

/// `char::is_control`: control characters are exactly the code points of
/// general category Cc, U+0000..=U+001F and U+007F..=U+009F.
pub fn is_control(c: char) -> (r: bool)
    ensures
        r == is_control_spec(c),
{
    let v = c as u32;
    v <= 0x1f || (0x7f <= v && v <= 0x9f)
}

/// `s` with every control character removed, order kept.
pub open spec fn strip_controls(s: Seq<char>) -> Seq<char>
    decreases s.len(),
{
    if s.len() == 0 {
        Seq::empty()
    } else if is_control_spec(s.last()) {
        strip_controls(s.drop_last())
    } else {
        strip_controls(s.drop_last()).push(s.last())
    }
}

/// Appends `c` to `s` (`String::push`).
#[verifier::external_body]
pub(crate) fn push_char(s: &mut String, c: char)
    ensures
        final(s)@ == old(s)@.push(c),
{
    s.push(c);
}

/// The insertable text in a key event's raw UTF-8, or `None` if there is none.
///
/// xkb maps Backspace/Return/Escape/Delete onto C0 control characters, so a raw
/// keysym-to-UTF-8 conversion yields text for keys that are editing commands;
/// every control character is dropped here, and text that keeps nothing is
/// no text at all.
pub fn insertable_text(text: &str) -> (r: Option<String>)
    ensures
        strip_controls(text@).len() == 0 <==> r is None,
        r matches Some(t) ==> t@ == strip_controls(text@),
{
    let n = text.unicode_len();
    let mut out = String::new();
    let mut i: usize = 0;
    while i < n
        invariant
            n == text@.len(),
            i <= n,
            out@ == strip_controls(text@.take(i as int)),
        decreases n - i,
    {
        let c = text.get_char(i);
        assert(text@.take(i + 1).drop_last() == text@.take(i as int));
        if !is_control(c) {
            push_char(&mut out, c);
        }
        i = i + 1;
    }
    assert(text@.take(n as int) == text@);
    if out.unicode_len() == 0 {
        None
    } else {
        Some(out)
    }
}


/// Modifier keys held while a key event arrived.
#[derive(Debug, Clone, Copy, PartialEq, Eq, Default)]
pub struct Modifiers {
    pub ctrl: bool,
    pub alt: bool,
    pub shift: bool,
    pub logo: bool,
    pub caps_lock: bool,
    pub num_lock: bool,
}

#[derive(Debug, Clone, PartialEq)]
pub enum KeyboardEventKind {
    Focus,
    Blur,
    Press { keysym: u32, repeat: bool },
    Release { keysym: u32 },
    /// IME composition, not yet committed.
    Preedit { text: String, cursor: Option<(usize, usize)> },
    /// Committed text: both direct typing and IME confirmation arrive here.
    Commit(String),
}

#[derive(Debug, Clone, PartialEq)]
pub struct KeyboardEvent {
    pub kind: KeyboardEventKind,
    pub modifiers: Modifiers,
}

/// The keysym a press or release carries.
pub open spec fn keysym_of(kind: KeyboardEventKind) -> Option<u32> {
    match kind {
        KeyboardEventKind::Press { keysym, .. } => Some(keysym),
        KeyboardEventKind::Release { keysym } => Some(keysym),
        _ => None,
    }
}

/// Whether committed text is exactly one space, the way Space usually
/// reaches a widget.
pub open spec fn is_space_text(t: Seq<char>) -> bool {
    t.len() == 1 && t[0] == ' '
}

pub fn text_is_space(t: &str) -> (r: bool)
    ensures
        r == is_space_text(t@),
{
    t.unicode_len() == 1 && t.get_char(0) == ' '
}

impl KeyboardEvent {
    pub fn new(kind: KeyboardEventKind, modifiers: Modifiers) -> (r: Self)
        ensures
            r.kind == kind,
            r.modifiers == modifiers,
    {
        Self { kind, modifiers }
    }

    pub fn keysym(&self) -> (r: Option<u32>)
        ensures
            r == keysym_of(self.kind),
    {
        match self.kind {
            KeyboardEventKind::Press { keysym, .. } => Some(keysym),
            KeyboardEventKind::Release { keysym } => Some(keysym),
            _ => None,
        }
    }

    pub fn is_press(&self, keysym: u32) -> (r: bool)
        ensures
            r == (self.kind matches KeyboardEventKind::Press { keysym: k, .. } && k == keysym),
    {
        match self.kind {
            KeyboardEventKind::Press { keysym: k, .. } => k == keysym,
            _ => false,
        }
    }

    pub fn is_release(&self, keysym: u32) -> (r: bool)
        ensures
            r == (self.kind matches KeyboardEventKind::Release { keysym: k } && k == keysym),
    {
        match self.kind {
            KeyboardEventKind::Release { keysym: k } => k == keysym,
            _ => false,
        }
    }

    pub fn commit_text(&self) -> (r: Option<&str>)
        ensures
            self.kind is Commit <==> r is Some,
            r matches Some(t) ==> (self.kind matches KeyboardEventKind::Commit(c) && t@ == c@),
    {
        match &self.kind {
            KeyboardEventKind::Commit(text) => Some(text.as_str()),
            _ => None,
        }
    }
}

/// The filter keeps no control character, and text that passed it passes
/// it again unchanged: inserting filtered text never needs filtering twice.
pub proof fn law_insertable_text_is_clean(s: Seq<char>)
    ensures
        forall|i: int| 0 <= i < strip_controls(s).len() ==> !is_control_spec(#[trigger] strip_controls(s)[i]),
        strip_controls(strip_controls(s)) == strip_controls(s),
        strip_controls(s).len() <= s.len(),
    decreases s.len(),
{
    if s.len() > 0 {
        law_insertable_text_is_clean(s.drop_last());
        let r = strip_controls(s.drop_last());
        if !is_control_spec(s.last()) {
            assert(strip_controls(s) == r.push(s.last()));
            assert(strip_controls(s).drop_last() =~= r);
        }
    }
}

} // verus!
