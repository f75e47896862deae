//! Window-manager integration: which compositor the bar talks to, and the
//! niri event stream folded into focus changes the components care about.
use vstd::prelude::*;

use std::collections::HashMap;

verus! {

/// What the window manager reports to the components.
#[derive(Debug, Clone, PartialEq, Eq)]
pub enum IPCEvent {
    /// (old, new) workspace id.
    FocusedWorkspaceChanged(u64, u64),
    /// Title of the newly focused window.
    FocusedWindowTitleChanged(Option<String>),
}

/// The compositor named by `XDG_CURRENT_DESKTOP`.
#[derive(Debug, Clone, Copy, PartialEq, Eq, Structural)]
pub enum DesktopBackend {
    Niri,
    Hyprland,
    /// A desktop the bar has no integration for.
    Unknown,
    /// The variable is not set.
    Unset,
}

/// The window-manager connection the bar ended up with.
#[derive(Debug, Clone, Copy, PartialEq, Eq, Structural)]
pub enum WindowManagerIPC {
    Niri,
    Hyprland,
    Unknown,
    ConnectionFailed,
    NoDesktop,
}

/// The backend a desktop name selects: exactly `niri` or `hyprland`.
pub open spec fn backend_for(desktop: Option<Seq<char>>) -> DesktopBackend {
    match desktop {
        None => DesktopBackend::Unset,
        Some(d) => if d == "niri"@ {
            DesktopBackend::Niri
        } else if d == "hyprland"@ {
            DesktopBackend::Hyprland
        } else {
            DesktopBackend::Unknown
        },
    }
}

pub open spec fn opt_str(o: Option<&str>) -> Option<Seq<char>> {
    match o {
        Some(s) => Some(s@),
        None => None,
    }
}

impl WindowManagerIPC {
    /// Which backend to set up for the desktop named by
    /// `XDG_CURRENT_DESKTOP` (`None` when it is unset).
    pub fn backend(desktop: Option<&str>) -> (r: DesktopBackend)
        ensures
            r == backend_for(opt_str(desktop)),
    {
        match desktop {
            None => DesktopBackend::Unset,
            Some(d) => {
                let s = String::from_str(d);
                if s == String::from_str("niri") {
                    DesktopBackend::Niri
                } else if s == String::from_str("hyprland") {
                    DesktopBackend::Hyprland
                } else {
                    DesktopBackend::Unknown
                }
            },
        }
    }

    /// The connection for a backend; `niri_connected` tells whether the niri
    /// sockets could be opened, and only matters for niri.
    pub fn connect(backend: DesktopBackend, niri_connected: bool) -> (r: WindowManagerIPC)
        ensures
            r == match backend {
                DesktopBackend::Niri => if niri_connected {
                    WindowManagerIPC::Niri
                } else {
                    WindowManagerIPC::ConnectionFailed
                },
                DesktopBackend::Hyprland => WindowManagerIPC::Hyprland,
                DesktopBackend::Unknown => WindowManagerIPC::Unknown,
                DesktopBackend::Unset => WindowManagerIPC::NoDesktop,
            },
    {
        match backend {
            DesktopBackend::Niri => if niri_connected {
                WindowManagerIPC::Niri
            } else {
                WindowManagerIPC::ConnectionFailed
            },
            DesktopBackend::Hyprland => WindowManagerIPC::Hyprland,
            DesktopBackend::Unknown => WindowManagerIPC::Unknown,
            DesktopBackend::Unset => WindowManagerIPC::NoDesktop,
        }
    }

    /// The focused workspace: on niri the id of the workspace marked focused in
    /// `workspaces` (id, focused), cut to 32 bits, or 0 when none is; without a
    /// window manager `u32::MAX`. Hyprland has no query yet.
    pub fn get_current_workspace(&self, workspaces: &Vec<(u64, bool)>) -> (r: u32)
        requires
            *self != WindowManagerIPC::Hyprland,
        ensures
            *self == WindowManagerIPC::Niri ==> r == focused_workspace(workspaces@),
            *self != WindowManagerIPC::Niri ==> r == u32::MAX,
    {
        match self {
            WindowManagerIPC::Niri => focused_workspace_id(workspaces),
            _ => u32::MAX,
        }
    }

    /// The focused window's title: on niri what the focused-window query
    /// returned, elsewhere none. Hyprland has no query yet.
    pub fn get_current_window_name(&self, focused_title: Option<String>) -> (r: Option<String>)
        requires
            *self != WindowManagerIPC::Hyprland,
        ensures
            *self == WindowManagerIPC::Niri ==> r == focused_title,
            *self != WindowManagerIPC::Niri ==> r is None,
    {
        match self {
            WindowManagerIPC::Niri => focused_title,
            _ => None,
        }
    }
}

/// The first workspace marked focused, by id cut to 32 bits; 0 if none is.
pub open spec fn focused_workspace(ws: Seq<(u64, bool)>) -> u32
    decreases ws.len(),
{
    if ws.len() == 0 {
        0
    } else if ws[0].1 {
        ws[0].0 as u32
    } else {
        focused_workspace(ws.drop_first())
    }
}

/// The id of the focused workspace among (id, focused) pairs.
pub fn focused_workspace_id(workspaces: &Vec<(u64, bool)>) -> (r: u32)
    ensures
        r == focused_workspace(workspaces@),
{
    let mut i: usize = 0;
    proof {
        assert(workspaces@.skip(0) =~= workspaces@);
    }
    while i < workspaces.len()
        invariant
            i <= workspaces@.len(),
            focused_workspace(workspaces@) == focused_workspace(workspaces@.skip(i as int)),
        decreases workspaces@.len() - i,
    {
        proof {
            assert(workspaces@.skip(i as int).drop_first() =~= workspaces@.skip(i as int + 1));
        }
        if workspaces[i].1 {
            return #[verifier::truncate] (workspaces[i].0 as u32);
        }
        i = i + 1;
    }
    0
}

/// What the bar reads of a niri window.
#[derive(Debug, Clone, PartialEq, Eq)]
pub struct WindowInfo {
    pub id: u64,
    pub title: Option<String>,
    pub is_focused: bool,
}

/// The niri events the bar reacts to; every other event is `Other`.
#[derive(Debug, Clone, PartialEq, Eq)]
pub enum NiriEvent {
    WorkspaceActivated { id: u64 },
    WindowsChanged { windows: Vec<WindowInfo> },
    WindowOpenedOrChanged { window: WindowInfo },
    WindowClosed { id: u64 },
    WindowFocusChanged { id: Option<u64> },
    Other,
}

/// The titles of a full window list by id; a later entry wins.
pub open spec fn titles_of(ws: Seq<WindowInfo>) -> Map<u64, Option<String>>
    decreases ws.len(),
{
    if ws.len() == 0 {
        Map::empty()
    } else {
        titles_of(ws.drop_last()).insert(ws.last().id, ws.last().title)
    }
}

/// What the bar remembers of the niri event stream.
pub struct NiriIpc {
    pub focused_ws_id: u64,
    pub focused_window_id: u64,
    pub titles: HashMap<u64, Option<String>>,
}

/// The model of the stream state: focused workspace, focused window, titles.
pub type NiriModel = (u64, u64, Map<u64, Option<String>>);

/// One event folded into the state, with what it reports.
pub open spec fn niri_step(s: NiriModel, e: NiriEvent) -> (NiriModel, Option<IPCEvent>) {
    let (ws, win, titles) = s;
    match e {
        NiriEvent::WorkspaceActivated { id } => if id != ws {
            ((id, win, titles), Some(IPCEvent::FocusedWorkspaceChanged(ws, id)))
        } else {
            (s, None)
        },
        NiriEvent::WindowsChanged { windows } => ((ws, win, titles_of(windows@)), None),
        NiriEvent::WindowOpenedOrChanged { window } => {
            let win2 = if window.is_focused {
                window.id
            } else {
                win
            };
            let report = if window.id == win2 {
                Some(IPCEvent::FocusedWindowTitleChanged(window.title))
            } else {
                None
            };
            ((ws, win2, titles.insert(window.id, window.title)), report)
        },
        NiriEvent::WindowClosed { id } => ((ws, win, titles.remove(id)), None),
        NiriEvent::WindowFocusChanged { id } => {
            let title = match id {
                Some(i) => if titles.contains_key(i) {
                    titles[i]
                } else {
                    None
                },
                None => None,
            };
            (s, Some(IPCEvent::FocusedWindowTitleChanged(title)))
        },
        NiriEvent::Other => (s, None),
    }
}

fn clone_title(t: &Option<String>) -> (r: Option<String>)
    ensures
        r == *t,
{
    match t {
        Some(s) => Some(s.clone()),
        None => None,
    }
}

impl NiriIpc {
    pub open spec fn model(&self) -> NiriModel {
        (self.focused_ws_id, self.focused_window_id, self.titles@)
    }

    /// The state before the first event: nothing focused, no window known.
    pub fn new() -> (r: NiriIpc)
        ensures
            r.model() == (0u64, 0u64, Map::<u64, Option<String>>::empty()),
    {
        NiriIpc { focused_ws_id: 0, focused_window_id: 0, titles: HashMap::new() }
    }

    /// Folds one event into the state and returns what it reports.
    pub fn on_event(&mut self, event: NiriEvent) -> (r: Option<IPCEvent>)
        ensures
            (final(self).model(), r) == niri_step(old(self).model(), event),
    {
        match event {
            NiriEvent::WorkspaceActivated { id } => {
                if id != self.focused_ws_id {
                    let old_id = self.focused_ws_id;
                    self.focused_ws_id = id;
                    Some(IPCEvent::FocusedWorkspaceChanged(old_id, id))
                } else {
                    None
                }
            },
            NiriEvent::WindowsChanged { windows } => {
                let mut titles: HashMap<u64, Option<String>> = HashMap::new();
                let mut i: usize = 0;
                while i < windows.len()
                    invariant
                        i <= windows@.len(),
                        titles@ == titles_of(windows@.take(i as int)),
                    decreases windows@.len() - i,
                {
                    proof {
                        assert(windows@.take(i as int + 1).drop_last() =~= windows@.take(i as int));
                    }
                    titles.insert(windows[i].id, clone_title(&windows[i].title));
                    i = i + 1;
                }
                proof {
                    assert(windows@.take(windows@.len() as int) =~= windows@);
                }
                self.titles = titles;
                None
            },
            NiriEvent::WindowOpenedOrChanged { window } => {
                if window.is_focused {
                    self.focused_window_id = window.id;
                }
                let report = if window.id == self.focused_window_id {
                    Some(IPCEvent::FocusedWindowTitleChanged(clone_title(&window.title)))
                } else {
                    None
                };
                self.titles.insert(window.id, window.title);
                report
            },
            NiriEvent::WindowClosed { id } => {
                self.titles.remove(&id);
                None
            },
            NiriEvent::WindowFocusChanged { id } => {
                let title = match id {
                    Some(i) => match self.titles.get(&i) {
                        Some(t) => clone_title(t),
                        None => None,
                    },
                    None => None,
                };
                Some(IPCEvent::FocusedWindowTitleChanged(title))
            },
            NiriEvent::Other => None,
        }
    }
}

/// Activating the workspace that is already focused reports nothing, so a
/// repeated activation reports a change at most once.
pub proof fn law_workspace_change_reported_once(s: NiriModel, id: u64)
    ensures
        niri_step(niri_step(s, NiriEvent::WorkspaceActivated { id }).0, NiriEvent::WorkspaceActivated { id }).1 is None,
        niri_step(s, NiriEvent::WorkspaceActivated { id }).0.0 == id,
{
}

/// A window opened and then closed leaves no title behind, and focus moving
/// to a window the bar knows reports that window's title.
pub proof fn law_window_titles_follow_events(s: NiriModel, w: WindowInfo)
    ensures
        !niri_step(
            niri_step(s, NiriEvent::WindowOpenedOrChanged { window: w }).0,
            NiriEvent::WindowClosed { id: w.id },
        ).0.2.contains_key(w.id),
        niri_step(
            niri_step(s, NiriEvent::WindowOpenedOrChanged { window: w }).0,
            NiriEvent::WindowFocusChanged { id: Some(w.id) },
        ).1 == Some(IPCEvent::FocusedWindowTitleChanged(w.title)),
{
}

/// Error raised while setting up the Hyprland integration.
#[derive(Debug, Clone, PartialEq, Eq)]
pub enum HyprlandIPCError {
    /// The event listener failed, with the listener's message.
    EventListenerError(String),
    NoInstance,
}

impl HyprlandIPCError {
    /// The error as a message.
    pub fn message(&self) -> (r: String)
        ensures
            match *self {
                HyprlandIPCError::EventListenerError(e) => r@ == "event listener error: "@ + e@,
                HyprlandIPCError::NoInstance => r@ == "no hyprland instance found"@,
            },
    {
        match self {
            HyprlandIPCError::EventListenerError(e) => {
                let mut s = String::from_str("event listener error: ");
                s.append(e.as_str());
                s
            },
            HyprlandIPCError::NoInstance => String::from_str("no hyprland instance found"),
        }
    }
}

/// The Hyprland connection; the integration listens to events only.
pub struct HyprlandIpc {}

} // verus!
