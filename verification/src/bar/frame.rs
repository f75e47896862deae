//! Frame pacing of one bar screen. A screen is painted at most once per
//! compositor frame callback: a repaint asked for while a frame is still in
//! flight is remembered and done when the callback arrives.
use vstd::prelude::*;

verus! {

/// What the screen's owner has to do after an event.
#[derive(Debug, Clone, Copy, PartialEq, Eq, Structural)]
pub enum FrameAction {
    /// Paint the screen now, request a frame callback and commit.
    Paint,
    /// Nothing to do yet.
    Wait,
}

/// The pacing state of one layer-shell surface.
#[derive(Debug, Clone, Copy, PartialEq, Eq, Structural)]
pub struct Screen {
    pub width: u32,
    pub height: u32,
    pub first_configure: bool,
    pub needs_redraw: bool,
    pub frame_pending: bool,
}

/// A configured extent: the compositor's `0` leaves the choice to the client,
/// which takes 256.
pub open spec fn configured_extent(requested: u32) -> u32 {
    if requested == 0 {
        256
    } else {
        requested
    }
}

impl Screen {
    /// The states reachable from `new`: before the first configure nothing has
    /// a size and no frame is in flight; afterwards both extents are positive;
    /// a repaint that is wanted and not waiting for a frame callback can only
    /// be waiting for the first configure.
    pub open spec fn wf(&self) -> bool {
        &&& self.first_configure ==> self.width == 0 && self.height == 0 && !self.frame_pending
        &&& !self.first_configure ==> self.width > 0 && self.height > 0
        &&& (self.needs_redraw && !self.frame_pending) ==> self.first_configure
    }

    /// The outcome of a paint attempt: with no size there is nothing to paint.
    pub open spec fn paint_spec(self) -> (Screen, FrameAction) {
        if self.width == 0 || self.height == 0 {
            (self, FrameAction::Wait)
        } else {
            (Screen { needs_redraw: false, frame_pending: true, ..self }, FrameAction::Paint)
        }
    }

    pub open spec fn request_redraw_spec(self) -> (Screen, FrameAction) {
        let asked = Screen { needs_redraw: true, ..self };
        if self.frame_pending {
            (asked, FrameAction::Wait)
        } else {
            asked.paint_spec()
        }
    }

    pub open spec fn frame_done_spec(self) -> (Screen, FrameAction) {
        let idle = Screen { frame_pending: false, ..self };
        if self.needs_redraw {
            idle.paint_spec()
        } else {
            (idle, FrameAction::Wait)
        }
    }

    pub open spec fn configure_spec(self, width: u32, height: u32) -> (Screen, FrameAction) {
        let sized = Screen {
            width: configured_extent(width),
            height: configured_extent(height),
            ..self
        };
        if self.first_configure {
            Screen { first_configure: false, ..sized }.paint_spec()
        } else {
            (sized, FrameAction::Wait)
        }
    }

    pub open spec fn new_spec() -> Screen {
        Screen { width: 0, height: 0, first_configure: true, needs_redraw: false, frame_pending: false }
    }

    /// A screen of a newly announced output, not yet configured.
    pub fn new() -> (r: Screen)
        ensures
            r.wf(),
            r == Screen::new_spec(),
    {
        Screen { width: 0, height: 0, first_configure: true, needs_redraw: false, frame_pending: false }
    }

    /// Tries to paint now: a screen without a size is left alone; otherwise
    /// the pending repaint is consumed and a frame is in flight.
    pub fn draw(&mut self) -> (a: FrameAction)
        ensures
            (*final(self), a) == old(self).paint_spec(),
    {
        if self.width == 0 || self.height == 0 {
            return FrameAction::Wait;
        }
        self.needs_redraw = false;
        self.frame_pending = true;
        FrameAction::Paint
    }

    /// A component asked for a repaint: paint now unless a frame is in flight.
    pub fn request_redraw(&mut self) -> (a: FrameAction)
        ensures
            (*final(self), a) == old(self).request_redraw_spec(),
    {
        self.needs_redraw = true;
        if !self.frame_pending {
            self.draw()
        } else {
            FrameAction::Wait
        }
    }

    /// The compositor's frame callback: the frame in flight is done, and a
    /// repaint asked for meanwhile happens now.
    pub fn frame_done(&mut self) -> (a: FrameAction)
        ensures
            (*final(self), a) == old(self).frame_done_spec(),
    {
        self.frame_pending = false;
        if self.needs_redraw {
            self.draw()
        } else {
            FrameAction::Wait
        }
    }

    /// A layer-surface configure: take the new size, and paint for the first
    /// time on the first configure.
    pub fn configure(&mut self, width: u32, height: u32) -> (a: FrameAction)
        ensures
            (*final(self), a) == old(self).configure_spec(width, height),
    {
        self.width = if width == 0 { 256 } else { width };
        self.height = if height == 0 { 256 } else { height };
        if self.first_configure {
            self.first_configure = false;
            self.draw()
        } else {
            FrameAction::Wait
        }
    }
}

/// Every event keeps a screen in the states `new` starts it in.
pub proof fn law_events_keep_screen_wf(s: Screen, width: u32, height: u32)
    requires
        s.wf(),
    ensures
        s.request_redraw_spec().0.wf(),
        s.frame_done_spec().0.wf(),
        s.configure_spec(width, height).0.wf(),
        s.paint_spec().0.wf(),
{
}

/// At most one frame is in flight: a paint only ever happens when no frame
/// is pending, and leaves one pending with nothing more to repaint.
pub proof fn law_one_frame_in_flight(s: Screen, width: u32, height: u32)
    requires
        s.wf(),
    ensures
        s.request_redraw_spec().1 == FrameAction::Paint ==> !s.frame_pending,
        s.configure_spec(width, height).1 == FrameAction::Paint ==> !s.frame_pending,
        s.frame_done_spec().1 == FrameAction::Paint ==> s.frame_pending,
        s.request_redraw_spec().1 == FrameAction::Paint ==> s.request_redraw_spec().0.frame_pending
            && !s.request_redraw_spec().0.needs_redraw,
        s.frame_done_spec().1 == FrameAction::Paint ==> s.frame_done_spec().0.frame_pending
            && !s.frame_done_spec().0.needs_redraw,
{
}

/// No repaint request is lost: once configured, a request is either painted
/// at once or kept until the frame in flight completes, and that completion
/// paints it.
pub proof fn law_no_lost_redraw(s: Screen)
    requires
        s.wf(),
        !s.first_configure,
    ensures
        s.request_redraw_spec().1 == FrameAction::Paint || (s.request_redraw_spec().0.needs_redraw
            && s.request_redraw_spec().0.frame_pending),
        s.request_redraw_spec().0.frame_done_spec().1 == FrameAction::Paint
            || s.request_redraw_spec().1 == FrameAction::Paint,
{
}

} // verus!
