//! The clock component: the local time it shows, refreshed on every tick,
//! and the slide it toggles when clicked.
use vstd::prelude::*;

use crate::bar::redraw::Redraw;
use crate::pointer::button;

verus! {

/// Whether `c` is an ASCII digit.
pub open spec fn digit(c: char) -> bool {
    '0' <= c && c <= '9'
}

/// The value of two ASCII digits.
pub open spec fn two_digits(a: char, b: char) -> int {
    (a as int - '0' as int) * 10 + (b as int - '0' as int)
}

/// `HH:MM:SS`: hour 00 to 23, minute 00 to 59, second 00 to 60 (a leap
/// second), each zero-padded to two digits.
pub open spec fn clock_text(t: Seq<char>) -> bool {
    &&& t.len() == 8
    &&& t[2] == ':' && t[5] == ':'
    &&& digit(t[0]) && digit(t[1]) && digit(t[3]) && digit(t[4]) && digit(t[6]) && digit(t[7])
    &&& two_digits(t[0], t[1]) <= 23
    &&& two_digits(t[3], t[4]) <= 59
    &&& two_digits(t[6], t[7]) <= 60
}

/// `chrono::Local::now().format("%H:%M:%S")`: the local time of day. Which
/// time it is depends on the clock, so only its shape is stated, as chrono
/// documents the three fields: two-digit hour, minute and second. chrono
/// panics only on the machine's state, never on an argument: a system clock
/// set before 1970, or a local time-zone offset that cannot be looked up.
#[verifier::external_body]
fn local_time_text() -> (r: String)
    ensures
        clock_text(r@),
{
    chrono::Local::now().format("%H:%M:%S").to_string()
}

/// The clock of one screen.
pub struct Clock {
    /// The screen whose repaint each tick asks for.
    pub screen: usize,
    /// The time last read, as shown.
    pub time: String,
    /// Whether the slide heads for its far end (it starts there).
    pub toward_end: bool,
}

impl Clock {
    /// A clock for screen `screen` that has not ticked yet.
    pub fn new(screen: usize) -> (r: Clock)
        ensures
            r.screen == screen,
            r.time@ == Seq::<char>::empty(),
            r.toward_end,
    {
        Clock { screen, time: String::new(), toward_end: true }
    }

    /// One tick: reads the local time and returns the screen to repaint.
    pub fn tick(&mut self) -> (r: usize)
        ensures
            r == old(self).screen,
            final(self).screen == old(self).screen,
            final(self).toward_end == old(self).toward_end,
            clock_text(final(self).time@),
    {
        self.time = local_time_text();
        self.screen
    }

    /// A pointer press: a left click on the time reverses the slide and
    /// repaints; anything else is ignored.
    pub fn on_press(&mut self, button: u32, on_time: bool) -> (r: Redraw)
        ensures
            final(self).screen == old(self).screen,
            final(self).time == old(self).time,
            (button == button::LEFT && on_time) ==> final(self).toward_end == !old(self).toward_end
                && r == Redraw::Now,
            !(button == button::LEFT && on_time) ==> final(self).toward_end == old(self).toward_end
                && r == Redraw::Nothing,
    {
        if on_time && button == button::LEFT {
            self.toward_end = !self.toward_end;
            Redraw::Now
        } else {
            Redraw::Nothing
        }
    }

    /// An easing changed in the animation configuration: the clock slides
    /// with the easing named `a`, and repaints when that one changes.
    pub fn on_easing_updated(&self, id: &str) -> (r: Redraw)
        ensures
            id@ == "a"@ ==> r == Redraw::Now,
            id@ != "a"@ ==> r == Redraw::Nothing,
    {
        if String::from_str(id) == String::from_str("a") {
            Redraw::Now
        } else {
            Redraw::Nothing
        }
    }

    /// What the clock asks for after painting: keep painting while the slide
    /// moves.
    pub fn after_paint(&self, slide_done: bool) -> (r: Redraw)
        ensures
            r == if slide_done {
                Redraw::Nothing
            } else {
                Redraw::Animating
            },
    {
        if slide_done {
            Redraw::Nothing
        } else {
            Redraw::Animating
        }
    }
}

} // verus!
