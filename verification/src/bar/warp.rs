//! The Cloudflare WARP indicator: the status `warp-cli -j status` reports,
//! the commands the bar sends it, and which statuses reach the UI.
use vstd::prelude::*;

use crate::bar::redraw::Redraw;
use crate::text::{chars_of, eq_ignore_ascii_case, range_eq_ignore_ascii_case};

verus! {

/// One status report of the WARP client.
#[derive(Debug, Clone, Default, PartialEq, Eq)]
pub struct WarpStatus {
    pub status: String,
    pub reason: Option<String>,
}

/// The view of an optional text.
pub open spec fn opt_text(o: Option<String>) -> Option<Seq<char>> {
    match o {
        Some(s) => Some(s@),
        None => None,
    }
}

/// Two statuses report the same thing.
pub open spec fn same_status(a: WarpStatus, b: WarpStatus) -> bool {
    a.status@ == b.status@ && opt_text(a.reason) == opt_text(b.reason)
}

fn same_text(a: &Option<String>, b: &Option<String>) -> (r: bool)
    ensures
        r == (opt_text(*a) == opt_text(*b)),
{
    match (a, b) {
        (Some(x), Some(y)) => *x == *y,
        (None, None) => true,
        _ => false,
    }
}

impl WarpStatus {
    /// The status with text `status` and the given reason.
    pub fn new(status: &str, reason: Option<String>) -> (r: WarpStatus)
        ensures
            r.status@ == status@,
            r.reason == reason,
    {
        WarpStatus { status: String::from_str(status), reason }
    }

    /// Whether the tunnel is up: the status reads `connected` in any ASCII case.
    pub fn is_connected(&self) -> (r: bool)
        ensures
            r == eq_ignore_ascii_case(self.status@, "connected"@),
    {
        let v = chars_of(self.status.as_str());
        proof {
            assert(v@.subrange(0, v@.len() as int) =~= v@);
        }
        range_eq_ignore_ascii_case(&v, 0, v.len(), "connected")
    }

    /// A copy of the status.
    pub fn duplicate(&self) -> (r: WarpStatus)
        ensures
            r == *self,
    {
        let reason = match &self.reason {
            Some(x) => Some(x.clone()),
            None => None,
        };
        WarpStatus { status: self.status.clone(), reason }
    }

    /// Whether `self` and `other` report the same status and reason.
    pub fn same_as(&self, other: &WarpStatus) -> (r: bool)
        ensures
            r == same_status(*self, *other),
    {
        self.status == other.status && same_text(&self.reason, &other.reason)
    }
}

/// The `reason` member of a status report as JSON gives it.
#[derive(Debug, Clone, PartialEq, Eq)]
pub enum ReasonValue {
    /// No `reason` member.
    Absent,
    Null,
    Text(String),
    /// An object, with its member names in the order the object yields them.
    Object(Vec<String>),
    /// Any other value, as its JSON text.
    Other(String),
}

/// The reason the status carries: a string as it is, a tagged object by its
/// tag (the first member name), any other value by its JSON text.
pub open spec fn reason_of(v: ReasonValue) -> Option<Seq<char>> {
    match v {
        ReasonValue::Absent => None,
        ReasonValue::Null => None,
        ReasonValue::Text(s) => Some(s@),
        ReasonValue::Object(keys) => if keys@.len() > 0 {
            Some(keys@[0]@)
        } else {
            None
        },
        ReasonValue::Other(s) => Some(s@),
    }
}

/// Collapses the JSON `reason` into the text the bar keeps.
pub fn collapse_reason(v: ReasonValue) -> (r: Option<String>)
    ensures
        opt_text(r) == reason_of(v),
{
    match v {
        ReasonValue::Absent => None,
        ReasonValue::Null => None,
        ReasonValue::Text(s) => Some(s),
        ReasonValue::Object(keys) => {
            if keys.len() > 0 {
                Some(keys[0].clone())
            } else {
                None
            }
        },
        ReasonValue::Other(s) => Some(s),
    }
}

/// A request to the WARP client.
#[derive(Debug, Clone, Copy, PartialEq, Eq, Structural)]
pub enum WarpCommand {
    Connect,
    Disconnect,
    /// Report the current status again, even if it did not change.
    UpdateState,
}

/// The `warp-cli` subcommand a request runs.
pub open spec fn cli_verb(cmd: WarpCommand) -> Option<Seq<char>> {
    match cmd {
        WarpCommand::Connect => Some("connect"@),
        WarpCommand::Disconnect => Some("disconnect"@),
        WarpCommand::UpdateState => None,
    }
}

impl WarpCommand {
    /// The arguments of the `warp-cli` call that carries out the request;
    /// `None` where no call is made and the status is only queried again.
    pub fn cli_args(&self) -> (r: Option<Vec<String>>)
        ensures
            match (r, cli_verb(*self)) {
                (Some(args), Some(verb)) => args@.len() == 2 && args@[0]@ == "--accept-tos"@
                    && args@[1]@ == verb,
                (None, None) => true,
                _ => false,
            },
    {
        let verb = match self {
            WarpCommand::Connect => "connect",
            WarpCommand::Disconnect => "disconnect",
            WarpCommand::UpdateState => {
                return None;
            },
        };
        Some(vec![String::from_str("--accept-tos"), String::from_str(verb)])
    }

    /// Whether the status that follows the request is reported even when it
    /// did not change: a status request always gets an answer.
    pub fn forces_report(&self) -> (r: bool)
        ensures
            r == (*self == WarpCommand::UpdateState),
    {
        matches!(self, WarpCommand::UpdateState)
    }
}

/// The arguments of the status query, `warp-cli -j --accept-tos status`.
pub fn status_query_args() -> (r: Vec<String>)
    ensures
        r@.len() == 3,
        r@[0]@ == "-j"@,
        r@[1]@ == "--accept-tos"@,
        r@[2]@ == "status"@,
{
    vec![String::from_str("-j"), String::from_str("--accept-tos"), String::from_str("status")]
}

/// The reporting side of the WARP client: it remembers the last status sent
/// to the UI so that an unchanged status is not sent twice.
pub struct WarpClient {
    pub last: Option<WarpStatus>,
}

/// Whether a query result is sent on: a status came back, and it is forced
/// or differs from the last one sent.
pub open spec fn reports(last: Option<WarpStatus>, status: Option<WarpStatus>, force: bool) -> bool {
    match status {
        None => false,
        Some(s) => force || !(last matches Some(l) && same_status(l, s)),
    }
}

impl WarpClient {
    /// A client that has sent nothing yet.
    pub fn new() -> (r: WarpClient)
        ensures
            r.last is None,
    {
        WarpClient { last: None }
    }

    /// Decides on one query result: returns the status to send to the UI, if
    /// any, and remembers it as the last one sent.
    pub fn emit(&mut self, status: Option<WarpStatus>, force: bool) -> (r: Option<WarpStatus>)
        ensures
            reports(old(self).last, status, force) ==> r == status && final(self).last == status,
            !reports(old(self).last, status, force) ==> r is None && final(self).last == old(
                self,
            ).last,
    {
        let s = match status {
            None => {
                return None;
            },
            Some(s) => s,
        };
        if !force {
            if let Some(l) = &self.last {
                if l.same_as(&s) {
                    return None;
                }
            }
        }
        self.last = Some(s.duplicate());
        Some(s)
    }
}

/// Feeding the same status twice without force reports it once; a forced
/// report (a status request) always answers when a status came back; a
/// status that differs from the last one sent is always reported; a failed
/// query reports nothing.
pub proof fn law_unchanged_status_reported_once(last: Option<WarpStatus>, s: WarpStatus, force: bool)
    ensures
        !reports(Some(s), Some(s), false),
        reports(last, Some(s), true),
        !(last matches Some(l) && same_status(l, s)) ==> reports(last, Some(s), false),
        !reports(last, None, force),
{
}

/// The bar's WARP indicator.
pub struct Warp {}

/// The color role the indicator's text is painted in.
#[derive(Debug, Clone, Copy, PartialEq, Eq, Structural)]
pub enum WarpColor {
    Primary,
    Error,
}

impl Warp {
    /// The indicator, together with the request it sends on creation so that
    /// the current status reaches it.
    pub fn new() -> (r: (Warp, WarpCommand))
        ensures
            r.1 == WarpCommand::UpdateState,
    {
        (Warp {}, WarpCommand::UpdateState)
    }

    /// What the indicator paints: nothing before the first status, else the
    /// status text, in the primary color while connected and in the error
    /// color otherwise.
    pub fn label(&self, status: &Option<WarpStatus>) -> (r: Option<(String, WarpColor)>)
        ensures
            match (r, *status) {
                (Some((text, color)), Some(s)) => text@ == s.status@ && (color == WarpColor::Primary
                    <==> eq_ignore_ascii_case(s.status@, "connected"@)),
                (None, None) => true,
                _ => false,
            },
    {
        match status {
            None => None,
            Some(s) => {
                let color = if s.is_connected() {
                    WarpColor::Primary
                } else {
                    WarpColor::Error
                };
                Some((s.status.clone(), color))
            },
        }
    }

    /// A new status always repaints the indicator at once.
    pub fn on_warp(&mut self, status: &WarpStatus) -> (r: Redraw)
        ensures
            r == Redraw::Now,
    {
        Redraw::Now
    }
}

} // verus!
