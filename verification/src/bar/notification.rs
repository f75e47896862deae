//! The freedesktop notification server of the bar: the ids it hands out, the
//! snapshot it keeps of each `Notify` call, and its fixed self-description.
use vstd::prelude::*;

verus! {

/// Urgency level carried in the `urgency` hint (a byte).
#[derive(Debug, Clone, Copy, PartialEq, Eq, Structural)]
pub enum Urgency {
    Low,
    Normal,
    Critical,
}

impl Default for Urgency {
    fn default() -> (r: Self)
        ensures
            r == Urgency::Normal,
    {
        Urgency::Normal
    }
}

/// The urgency a hint byte names: 0 is low, 2 critical, anything else normal.
pub open spec fn urgency_of(b: u8) -> Urgency {
    if b == 0 {
        Urgency::Low
    } else if b == 2 {
        Urgency::Critical
    } else {
        Urgency::Normal
    }
}

impl From<u8> for Urgency {
    fn from(value: u8) -> (r: Self) {
        if value == 0 {
            Urgency::Low
        } else if value == 2 {
            Urgency::Critical
        } else {
            Urgency::Normal
        }
    }
}

impl vstd::std_specs::convert::FromSpecImpl<u8> for Urgency {
    open spec fn obeys_from_spec() -> bool {
        true
    }

    open spec fn from_spec(v: u8) -> Urgency {
        urgency_of(v)
    }
}

/// Why a notification was closed, as the `NotificationClosed` signal reports it.
#[derive(Debug, Clone, Copy, PartialEq, Eq, Structural)]
pub enum CloseReason {
    Expired,
    Dismissed,
    Closed,
    Undefined,
}

impl CloseReason {
    /// The reason code on the bus: 1 expired, 2 dismissed, 3 closed by a
    /// call, 4 undefined.
    pub fn code(self) -> (r: u32)
        ensures
            r == match self {
                CloseReason::Expired => 1u32,
                CloseReason::Dismissed => 2u32,
                CloseReason::Closed => 3u32,
                CloseReason::Undefined => 4u32,
            },
    {
        match self {
            CloseReason::Expired => 1,
            CloseReason::Dismissed => 2,
            CloseReason::Closed => 3,
            CloseReason::Undefined => 4,
        }
    }
}

/// A snapshot of one `Notify` call: everything the UI needs to render it.
#[derive(Debug, Clone, Default)]
pub struct NotificationSnapshot {
    pub app_name: String,
    pub app_icon: String,
    pub summary: String,
    pub body: String,
    /// (key, label) pairs the user can invoke; the flat list is paired up.
    pub actions: Vec<(String, String)>,
    pub urgency: Urgency,
    /// Milliseconds. `-1` is the server's default, `0` never expires.
    pub expire_timeout: i32,
}

/// What the server tells the UI.
#[derive(Debug, Clone)]
pub enum NotificationEvent {
    Posted { id: u32, data: NotificationSnapshot },
    Closed { id: u32 },
}

/// The flat action list paired up, key then label; a trailing odd entry is
/// dropped.
pub open spec fn paired(actions: Seq<String>) -> Seq<(String, String)> {
    Seq::new((actions.len() / 2) as nat, |i: int| (actions[2 * i], actions[2 * i + 1]))
}

/// Pairs the flat `actions` list of a `Notify` call into (key, label).
pub fn pair_actions(actions: &Vec<String>) -> (r: Vec<(String, String)>)
    ensures
        r@ == paired(actions@),
{
    let len = actions.len();
    let n = len / 2;
    let mut out: Vec<(String, String)> = Vec::new();
    let mut i: usize = 0;
    while i < n
        invariant
            len == actions@.len(),
            n == len / 2,
            i <= n,
            out@ == paired(actions@).take(i as int),
        decreases n - i,
    {
        assert(2 * i + 1 < len) by (nonlinear_arith)
            requires
                i < n,
                n == len / 2,
        ;
        let key = actions[2 * i].clone();
        let label = actions[2 * i + 1].clone();
        out.push((key, label));
        i = i + 1;
        assert(out@ =~= paired(actions@).take(i as int));
    }
    assert(paired(actions@).take(n as int) =~= paired(actions@));
    out
}

/// The id after `id` in the server's cycle: one more, wrapping past `u32::MAX`
/// and skipping 0, which the protocol reserves.
pub open spec fn next_id(id: u32) -> u32 {
    if id == u32::MAX {
        1
    } else {
        (id + 1) as u32
    }
}

/// The state of the notification server: the last id it handed out.
pub struct NotificationServer {
    pub next_id: u32,
}

impl NotificationServer {
    /// A server that has handed out no id yet.
    pub fn new() -> (r: NotificationServer)
        ensures
            r.next_id == 0,
    {
        NotificationServer { next_id: 0 }
    }

    /// The id of a `Notify` call: the replaced notification's id when it
    /// names one, else the next fresh id.
    pub fn assign_id(&mut self, replaces_id: u32) -> (r: u32)
        ensures
            replaces_id != 0 ==> r == replaces_id && final(self).next_id == old(self).next_id,
            replaces_id == 0 ==> r == next_id(old(self).next_id) && final(self).next_id == r,
            r != 0,
    {
        if replaces_id != 0 {
            return replaces_id;
        }
        self.next_id = self.next_id.wrapping_add(1);
        if self.next_id == 0 {
            self.next_id = 1;
        }
        self.next_id
    }

    /// Handles a `Notify` call: assigns its id and returns it with the event
    /// that posts the snapshot. `urgency_hint` is the `urgency` hint when the
    /// call carries one as a byte; without it the urgency is normal.
    pub fn notify(
        &mut self,
        app_name: String,
        replaces_id: u32,
        app_icon: String,
        summary: String,
        body: String,
        actions: Vec<String>,
        urgency_hint: Option<u8>,
        expire_timeout: i32,
    ) -> (r: (u32, NotificationEvent))
        ensures
            replaces_id != 0 ==> r.0 == replaces_id && final(self).next_id == old(self).next_id,
            replaces_id == 0 ==> r.0 == next_id(old(self).next_id) && final(self).next_id == r.0,
            match r.1 {
                NotificationEvent::Posted { id, data } => {
                    &&& id == r.0
                    &&& data.app_name == app_name
                    &&& data.app_icon == app_icon
                    &&& data.summary == summary
                    &&& data.body == body
                    &&& data.actions@ == paired(actions@)
                    &&& data.urgency == match urgency_hint {
                        Some(b) => urgency_of(b),
                        None => Urgency::Normal,
                    }
                    &&& data.expire_timeout == expire_timeout
                },
                _ => false,
            },
    {
        let id = self.assign_id(replaces_id);
        let urgency = match urgency_hint {
            Some(b) => Urgency::from(b),
            None => Urgency::Normal,
        };
        let actions = pair_actions(&actions);
        let data = NotificationSnapshot {
            app_name,
            app_icon,
            summary,
            body,
            actions,
            urgency,
            expire_timeout,
        };
        (id, NotificationEvent::Posted { id, data })
    }

    /// Handles a `CloseNotification` call: the event for the UI, and the
    /// reason code of the `NotificationClosed` signal (closed by a call).
    pub fn close_notification(&self, id: u32) -> (r: (NotificationEvent, u32))
        ensures
            r.0 matches NotificationEvent::Closed { id: closed } && closed == id,
            r.1 == 3,
    {
        (NotificationEvent::Closed { id }, CloseReason::Closed.code())
    }

    /// The capabilities the server announces.
    pub fn get_capabilities(&self) -> (r: Vec<String>)
        ensures
            r@.len() == 3,
            r@[0]@ == "actions"@,
            r@[1]@ == "body"@,
            r@[2]@ == "body-markup"@,
    {
        vec![String::from_str("actions"), String::from_str("body"), String::from_str("body-markup")]
    }

    /// Name, vendor, version and specification version of the server; the
    /// version is the package's, handed in by the caller.
    pub fn get_server_information(&self, version: &str) -> (r: (String, String, String, String))
        ensures
            r.0@ == "gtk_shell"@,
            r.1@ == "minearchive"@,
            r.2@ == version@,
            r.3@ == "1.2"@,
    {
        (
            String::from_str("gtk_shell"),
            String::from_str("minearchive"),
            String::from_str(version),
            String::from_str("1.2"),
        )
    }
}

/// A notification id is never 0, whether fresh or replacing.
pub proof fn law_ids_are_nonzero(id: u32)
    ensures
        next_id(id) != 0,
{
}

/// Two fresh ids in a row differ: the counter only comes back to an id after
/// running through every other nonzero value.
pub proof fn law_consecutive_fresh_ids_differ(id: u32)
    requires
        id != 0,
    ensures
        next_id(next_id(id)) != next_id(id),
        next_id(id) != id,
{
}

} // verus!
