//! The bar's screens together: one per output, each paced on its own, and
//! the screen a drag-and-drop is over.
use vstd::prelude::*;

use crate::bar::frame::{FrameAction, Screen};
use crate::bar::redraw::Redraw;

verus! {

/// All screens of the bar.
pub struct Shell {
    pub screens: Vec<Screen>,
    /// The screen a drag is held over, from its enter to its leave or drop.
    pub dragging_screen: Option<usize>,
    /// Set once the compositor closed a surface; the event loop then ends.
    pub exit: bool,
    /// How many screens were ever created; each screen's UI is numbered by
    /// it, and a repaint of all screens goes over every number.
    pub counter: usize,
}

/// Every screen asking for a repaint.
pub open spec fn all_now(n: nat) -> Seq<Redraw> {
    Seq::new(n, |i: int| Redraw::Now)
}

/// The screens a dispatch paints, in order: those whose UI asked for a
/// repaint and had no frame in flight.
pub open spec fn painted(screens: Seq<Screen>, answers: Seq<Redraw>) -> Seq<usize>
    decreases answers.len(),
{
    if answers.len() == 0 {
        Seq::empty()
    } else {
        let i = answers.len() - 1;
        let rest = painted(screens, answers.drop_last());
        if answers[i] != Redraw::Nothing && screens[i].request_redraw_spec().1 == FrameAction::Paint {
            rest.push(i as usize)
        } else {
            rest
        }
    }
}

impl Shell {
    /// Every screen is in a reachable pacing state.
    pub open spec fn wf(&self) -> bool {
        &&& forall|i: int| 0 <= i < self.screens@.len() ==> #[trigger] self.screens@[i].wf()
        &&& self.screens@.len() <= self.counter
    }

    /// A bar without outputs yet.
    pub fn new() -> (r: Shell)
        ensures
            r.wf(),
            r.screens@.len() == 0,
            r.dragging_screen is None,
            !r.exit,
            r.counter == 0,
    {
        Shell { screens: Vec::new(), dragging_screen: None, exit: false, counter: 0 }
    }

    /// A new output got a screen, not configured yet. Returns the number
    /// its UI is created with.
    pub fn new_output(&mut self) -> (r: usize)
        requires
            old(self).wf(),
            old(self).counter < usize::MAX,
        ensures
            final(self).wf(),
            r == old(self).counter,
            final(self).counter == old(self).counter + 1,
            final(self).screens@ == old(self).screens@.push(Screen::new_spec()),
            final(self).dragging_screen == old(self).dragging_screen,
            final(self).exit == old(self).exit,
    {
        let c = self.counter;
        self.screens.push(Screen::new());
        self.counter = c + 1;
        c
    }

    /// A screen's UI asked for a repaint; an index with no screen is ignored.
    pub fn request_redraw(&mut self, idx: usize) -> (r: FrameAction)
        requires
            old(self).wf(),
        ensures
            final(self).wf(),
            idx < old(self).screens@.len() ==> final(self).screens@ == old(self).screens@.update(
                idx as int,
                old(self).screens@[idx as int].request_redraw_spec().0,
            ) && r == old(self).screens@[idx as int].request_redraw_spec().1,
            idx >= old(self).screens@.len() ==> final(self).screens@ == old(self).screens@ && r
                == FrameAction::Wait,
            final(self).dragging_screen == old(self).dragging_screen,
            final(self).exit == old(self).exit,
            final(self).counter == old(self).counter,
    {
        if idx >= self.screens.len() {
            return FrameAction::Wait;
        }
        let mut s = self.screens[idx];
        let a = s.request_redraw();
        self.screens.set(idx, s);
        proof {
            crate::bar::frame::law_events_keep_screen_wf(old(self).screens@[idx as int], 0, 0);
        }
        a
    }

    /// The frame callback of screen `idx`.
    pub fn frame(&mut self, idx: usize) -> (r: FrameAction)
        requires
            old(self).wf(),
            idx < old(self).screens@.len(),
        ensures
            final(self).wf(),
            final(self).screens@ == old(self).screens@.update(
                idx as int,
                old(self).screens@[idx as int].frame_done_spec().0,
            ),
            r == old(self).screens@[idx as int].frame_done_spec().1,
            final(self).dragging_screen == old(self).dragging_screen,
            final(self).exit == old(self).exit,
            final(self).counter == old(self).counter,
    {
        let mut s = self.screens[idx];
        let a = s.frame_done();
        self.screens.set(idx, s);
        proof {
            crate::bar::frame::law_events_keep_screen_wf(old(self).screens@[idx as int], 0, 0);
        }
        a
    }

    /// A configure of screen `idx`.
    pub fn configure(&mut self, idx: usize, width: u32, height: u32) -> (r: FrameAction)
        requires
            old(self).wf(),
            idx < old(self).screens@.len(),
        ensures
            final(self).wf(),
            final(self).screens@ == old(self).screens@.update(
                idx as int,
                old(self).screens@[idx as int].configure_spec(width, height).0,
            ),
            r == old(self).screens@[idx as int].configure_spec(width, height).1,
            final(self).dragging_screen == old(self).dragging_screen,
            final(self).exit == old(self).exit,
            final(self).counter == old(self).counter,
    {
        let mut s = self.screens[idx];
        let a = s.configure(width, height);
        self.screens.set(idx, s);
        proof {
            crate::bar::frame::law_events_keep_screen_wf(old(self).screens@[idx as int], width, height);
        }
        a
    }

    /// An input event went to every screen's UI, which answered `answers`
    /// (one per screen): each screen that asked is repainted or marked for
    /// its next frame. Returns the screens to paint now.
    pub fn dispatch(&mut self, answers: &[Redraw]) -> (r: Vec<usize>)
        requires
            old(self).wf(),
            answers@.len() == old(self).screens@.len(),
        ensures
            final(self).wf(),
            final(self).screens@.len() == old(self).screens@.len(),
            forall|i: int|
                0 <= i < answers@.len() ==> #[trigger] final(self).screens@[i] == if answers@[i]
                    != Redraw::Nothing {
                    old(self).screens@[i].request_redraw_spec().0
                } else {
                    old(self).screens@[i]
                },
            r@ == painted(old(self).screens@, answers@),
            final(self).dragging_screen == old(self).dragging_screen,
            final(self).exit == old(self).exit,
            final(self).counter == old(self).counter,
    {
        let ghost before = self.screens@;
        let mut out: Vec<usize> = Vec::new();
        let mut i: usize = 0;
        while i < answers.len()
            invariant
                answers@.len() == before.len(),
                self.screens@.len() == before.len(),
                i <= answers@.len(),
                self.wf(),
                forall|j: int|
                    0 <= j < i ==> #[trigger] self.screens@[j] == if answers@[j] != Redraw::Nothing {
                        before[j].request_redraw_spec().0
                    } else {
                        before[j]
                    },
                forall|j: int| i <= j < before.len() ==> #[trigger] self.screens@[j] == before[j],
                out@ == painted(before, answers@.take(i as int)),
                self.dragging_screen == old(self).dragging_screen,
                self.exit == old(self).exit,
                self.counter == old(self).counter,
            decreases answers@.len() - i,
        {
            proof {
                assert(answers@.take(i + 1).drop_last() =~= answers@.take(i as int));
            }
            if answers[i].wants_paint() {
                let a = self.request_redraw(i);
                if matches!(a, FrameAction::Paint) {
                    out.push(i);
                }
            }
            i = i + 1;
        }
        proof {
            assert(answers@.take(answers@.len() as int) =~= answers@);
        }
        out
    }

    /// Every screen number asks for a repaint, as after a configuration
    /// reload; numbers of screens that are gone are ignored. Returns the
    /// screens to paint now.
    pub fn request_redraw_all(&mut self) -> (r: Vec<usize>)
        requires
            old(self).wf(),
        ensures
            final(self).wf(),
            final(self).screens@.len() == old(self).screens@.len(),
            forall|i: int|
                0 <= i < old(self).screens@.len() ==> #[trigger] final(self).screens@[i]
                    == old(self).screens@[i].request_redraw_spec().0,
            r@ == painted(old(self).screens@, all_now(old(self).screens@.len())),
            final(self).dragging_screen == old(self).dragging_screen,
            final(self).exit == old(self).exit,
            final(self).counter == old(self).counter,
    {
        let ghost before = self.screens@;
        let n = self.screens.len();
        let mut out: Vec<usize> = Vec::new();
        let mut i: usize = 0;
        while i < self.counter
            invariant
                n == before.len(),
                self.screens@.len() == n,
                n <= self.counter,
                self.wf(),
                forall|j: int|
                    0 <= j < n && j < i ==> #[trigger] self.screens@[j]
                        == before[j].request_redraw_spec().0,
                forall|j: int| i <= j < n ==> #[trigger] self.screens@[j] == before[j],
                out@ == painted(before, all_now(if i < n { i as nat } else { n as nat })),
                self.dragging_screen == old(self).dragging_screen,
                self.exit == old(self).exit,
                self.counter == old(self).counter,
            decreases self.counter - i,
        {
            if i < n {
                proof {
                    assert(all_now((i + 1) as nat).drop_last() =~= all_now(i as nat));
                }
            }
            let a = self.request_redraw(i);
            if matches!(a, FrameAction::Paint) {
                out.push(i);
            }
            i = i + 1;
        }
        out
    }

    /// The output of screen `idx` went away, and the screen with it.
    pub fn output_destroyed(&mut self, idx: usize)
        requires
            old(self).wf(),
            idx < old(self).screens@.len(),
        ensures
            final(self).wf(),
            final(self).screens@ == old(self).screens@.remove(idx as int),
            final(self).dragging_screen == old(self).dragging_screen,
            final(self).exit == old(self).exit,
            final(self).counter == old(self).counter,
    {
        self.screens.remove(idx);
    }

    /// A drag entered screen `idx`.
    pub fn drag_enter(&mut self, idx: usize)
        ensures
            final(self).dragging_screen == Some(idx),
            final(self).screens == old(self).screens,
            final(self).exit == old(self).exit,
            final(self).counter == old(self).counter,
    {
        self.dragging_screen = Some(idx);
    }

    /// The drag left or was dropped: the screen it was over, if any; no
    /// screen is dragged over afterwards.
    pub fn take_dragging_screen(&mut self) -> (r: Option<usize>)
        ensures
            r == old(self).dragging_screen,
            final(self).dragging_screen is None,
            final(self).screens == old(self).screens,
            final(self).exit == old(self).exit,
            final(self).counter == old(self).counter,
    {
        let r = self.dragging_screen;
        self.dragging_screen = None;
        r
    }

    /// The compositor closed a surface: the bar exits.
    pub fn closed(&mut self)
        ensures
            final(self).exit,
            final(self).screens == old(self).screens,
            final(self).dragging_screen == old(self).dragging_screen,
            final(self).counter == old(self).counter,
    {
        self.exit = true;
    }
}

} // verus!
