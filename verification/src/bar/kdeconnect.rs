//! KDE Connect as the bar follows it: the events its devices raise, how they
//! read in the log, the D-Bus objects the commands go to, and the registry of
//! devices the client listens to.
use vstd::prelude::*;

verus! {

/// How a phone call reported by a device stands.
#[derive(Debug, Clone, Copy, PartialEq, Eq, Structural)]
pub enum PhoneCallType {
    Ringing,
    Talking,
    MissedCall,
    Unknown,
}

/// The call state a telephony signal's event name stands for.
pub open spec fn call_type_of(event: Seq<char>) -> PhoneCallType {
    if event == "ringing"@ {
        PhoneCallType::Ringing
    } else if event == "talking"@ {
        PhoneCallType::Talking
    } else if event == "missedCall"@ {
        PhoneCallType::MissedCall
    } else {
        PhoneCallType::Unknown
    }
}

/// How a call state reads.
pub open spec fn call_type_text(t: PhoneCallType) -> Seq<char> {
    match t {
        PhoneCallType::Ringing => "ringing"@,
        PhoneCallType::Talking => "talking"@,
        PhoneCallType::MissedCall => "missed"@,
        PhoneCallType::Unknown => "unknown"@,
    }
}

/// Whether two texts are equal.
fn same_text(a: &str, b: &str) -> (r: bool)
    ensures
        r == (a@ == b@),
{
    String::from_str(a) == String::from_str(b)
}

impl From<String> for PhoneCallType {
    fn from(value: String) -> (r: Self) {
        let v = value.as_str();
        if same_text(v, "ringing") {
            PhoneCallType::Ringing
        } else if same_text(v, "talking") {
            PhoneCallType::Talking
        } else if same_text(v, "missedCall") {
            PhoneCallType::MissedCall
        } else {
            PhoneCallType::Unknown
        }
    }
}

impl vstd::std_specs::convert::FromSpecImpl<String> for PhoneCallType {
    open spec fn obeys_from_spec() -> bool {
        true
    }

    open spec fn from_spec(v: String) -> PhoneCallType {
        call_type_of(v@)
    }
}

impl PhoneCallType {
    /// How the call state reads in the log.
    pub fn to_text(&self) -> (r: String)
        ensures
            r@ == call_type_text(*self),
    {
        let s = match self {
            PhoneCallType::Ringing => "ringing",
            PhoneCallType::Talking => "talking",
            PhoneCallType::MissedCall => "missed",
            PhoneCallType::Unknown => "unknown",
        };
        String::from_str(s)
    }
}

/// A snapshot of one notification mirrored from a device.
#[derive(Debug, Clone, Default)]
pub struct NotificationSnapshot {
    pub app_name: String,
    pub title: String,
    pub text: String,
    pub ticker: String,
    pub icon_path: String,
    pub group_name: String,
    pub reply_id: String,
    pub dismissable: bool,
    pub silent: bool,
    pub is_conversation: bool,
}

/// What a KDE Connect device reports to the bar.
#[derive(Debug, Clone)]
pub enum KDEConnectEvent {
    DeviceConnected { name: String, id: String },
    DeviceDisconnected { name: String, id: String, reason: String },
    FileTransferRequest(String),
    FileTransferRequestReject(String),
    /// Number, name, detail.
    SMSMessage(String, String, String),
    PhoneCall { number: String, name: String, call_type: PhoneCallType },
    NotificationPosted { device_id: String, id: String, data: NotificationSnapshot },
    NotificationUpdated { device_id: String, id: String, data: NotificationSnapshot },
    /// The notification object is already gone; only its key is left.
    NotificationRemoved { device_id: String, id: String },
    /// The device cleared every notification at once.
    AllNotificationsRemoved { device_id: String },
}

/// How an event reads in the log.
pub open spec fn event_text(e: KDEConnectEvent) -> Seq<char> {
    match e {
        KDEConnectEvent::DeviceConnected { name, id } => "device connected: "@ + name@ + " ("@
            + id@ + ")"@,
        KDEConnectEvent::DeviceDisconnected { name, id, reason } => "device disconnected: "@
            + name@ + " ("@ + id@ + "): "@ + reason@,
        KDEConnectEvent::FileTransferRequest(info) => "file transfer request: "@ + info@,
        KDEConnectEvent::FileTransferRequestReject(to) => "file transfer rejected: "@ + to@,
        KDEConnectEvent::SMSMessage(number, name, detail) => "sms from "@ + name@ + " <"@
            + number@ + ">: "@ + detail@,
        KDEConnectEvent::PhoneCall { number, name, call_type } => call_type_text(call_type)
            + " call: "@ + name@ + " <"@ + number@ + ">"@,
        KDEConnectEvent::NotificationPosted { id, data, .. } => "notification ["@ + id@ + "]: "@
            + data.title@ + " - "@ + data.text@,
        KDEConnectEvent::NotificationUpdated { id, data, .. } => "notification updated ["@ + id@
            + "]: "@ + data.title@ + " - "@ + data.text@,
        KDEConnectEvent::NotificationRemoved { device_id, id } => "notification removed: "@
            + device_id@ + "/"@ + id@,
        KDEConnectEvent::AllNotificationsRemoved { device_id } => "all notifications removed: "@
            + device_id@,
    }
}

impl KDEConnectEvent {
    /// The event as a log line.
    pub fn to_text(&self) -> (r: String)
        ensures
            r@ == event_text(*self),
    {
        match self {
            KDEConnectEvent::DeviceConnected { name, id } => {
                let mut s = String::from_str("device connected: ");
                s.append(name.as_str());
                s.append(" (");
                s.append(id.as_str());
                s.append(")");
                s
            },
            KDEConnectEvent::DeviceDisconnected { name, id, reason } => {
                let mut s = String::from_str("device disconnected: ");
                s.append(name.as_str());
                s.append(" (");
                s.append(id.as_str());
                s.append("): ");
                s.append(reason.as_str());
                s
            },
            KDEConnectEvent::FileTransferRequest(info) => {
                let mut s = String::from_str("file transfer request: ");
                s.append(info.as_str());
                s
            },
            KDEConnectEvent::FileTransferRequestReject(to) => {
                let mut s = String::from_str("file transfer rejected: ");
                s.append(to.as_str());
                s
            },
            KDEConnectEvent::SMSMessage(number, name, detail) => {
                let mut s = String::from_str("sms from ");
                s.append(name.as_str());
                s.append(" <");
                s.append(number.as_str());
                s.append(">: ");
                s.append(detail.as_str());
                s
            },
            KDEConnectEvent::PhoneCall { number, name, call_type } => {
                let mut s = call_type.to_text();
                s.append(" call: ");
                s.append(name.as_str());
                s.append(" <");
                s.append(number.as_str());
                s.append(">");
                s
            },
            KDEConnectEvent::NotificationPosted { id, data, .. } => {
                let mut s = String::from_str("notification [");
                s.append(id.as_str());
                s.append("]: ");
                s.append(data.title.as_str());
                s.append(" - ");
                s.append(data.text.as_str());
                s
            },
            KDEConnectEvent::NotificationUpdated { id, data, .. } => {
                let mut s = String::from_str("notification updated [");
                s.append(id.as_str());
                s.append("]: ");
                s.append(data.title.as_str());
                s.append(" - ");
                s.append(data.text.as_str());
                s
            },
            KDEConnectEvent::NotificationRemoved { device_id, id } => {
                let mut s = String::from_str("notification removed: ");
                s.append(device_id.as_str());
                s.append("/");
                s.append(id.as_str());
                s
            },
            KDEConnectEvent::AllNotificationsRemoved { device_id } => {
                let mut s = String::from_str("all notifications removed: ");
                s.append(device_id.as_str());
                s
            },
        }
    }
}

/// A request to a device.
#[derive(Debug, Clone)]
pub enum KDEConnectCommand {
    SendPing { device_id: String },
    Ring { device_id: String },
    ShareText { device_id: String, text: String },
}

/// The object path of a device.
pub open spec fn device_path_text(id: Seq<char>) -> Seq<char> {
    "/modules/kdeconnect/devices/"@ + id
}

/// The object path of a device, `/modules/kdeconnect/devices/<id>`.
pub fn device_path(id: &str) -> (r: String)
    ensures
        r@ == device_path_text(id@),
{
    let mut s = String::from_str("/modules/kdeconnect/devices/");
    s.append(id);
    s
}

/// The object path of one of a device's plugins, `<device path>/<plugin>`.
pub fn plugin_path(id: &str, plugin: &str) -> (r: String)
    ensures
        r@ == device_path_text(id@) + "/"@ + plugin@,
{
    let mut s = device_path(id);
    s.append("/");
    s.append(plugin);
    s
}

/// The object path of a mirrored notification,
/// `<device path>/notifications/<public id>`.
pub fn notification_path(device_path: &str, public_id: &str) -> (r: String)
    ensures
        r@ == device_path@ + "/notifications/"@ + public_id@,
{
    let mut s = String::from_str(device_path);
    s.append("/notifications/");
    s.append(public_id);
    s
}

/// The plugin a command goes to.
pub open spec fn command_plugin(c: KDEConnectCommand) -> Seq<char> {
    match c {
        KDEConnectCommand::SendPing { .. } => "ping"@,
        KDEConnectCommand::Ring { .. } => "findmyphone"@,
        KDEConnectCommand::ShareText { .. } => "share"@,
    }
}

pub open spec fn command_device(c: KDEConnectCommand) -> Seq<char> {
    match c {
        KDEConnectCommand::SendPing { device_id } => device_id@,
        KDEConnectCommand::Ring { device_id } => device_id@,
        KDEConnectCommand::ShareText { device_id, .. } => device_id@,
    }
}

impl KDEConnectCommand {
    /// The object the command is sent to: the device's `ping`, `findmyphone`
    /// or `share` plugin.
    pub fn object_path(&self) -> (r: String)
        ensures
            r@ == device_path_text(command_device(*self)) + "/"@ + command_plugin(*self),
    {
        match self {
            KDEConnectCommand::SendPing { device_id } => plugin_path(device_id.as_str(), "ping"),
            KDEConnectCommand::Ring { device_id } => plugin_path(device_id.as_str(), "findmyphone"),
            KDEConnectCommand::ShareText { device_id, .. } => plugin_path(
                device_id.as_str(),
                "share",
            ),
        }
    }
}

/// The event a reachability change of a known device raises.
pub fn reachability_event(id: &str, name: &str, reachable: bool) -> (r: KDEConnectEvent)
    ensures
        reachable ==> (r matches KDEConnectEvent::DeviceConnected { name: n, id: i } && n@
            == name@ && i@ == id@),
        !reachable ==> (r matches KDEConnectEvent::DeviceDisconnected { name: n, id: i, reason }
            && n@ == name@ && i@ == id@ && reason@ == "Device unreachable"@),
{
    if reachable {
        KDEConnectEvent::DeviceConnected { name: String::from_str(name), id: String::from_str(id) }
    } else {
        KDEConnectEvent::DeviceDisconnected {
            name: String::from_str(name),
            id: String::from_str(id),
            reason: String::from_str("Device unreachable"),
        }
    }
}

/// The event a telephony `callReceived` signal raises.
pub fn phone_call_event(number: &str, name: &str, event: String) -> (r: KDEConnectEvent)
    ensures
        r matches KDEConnectEvent::PhoneCall { number: n, name: c, call_type } && n@ == number@
            && c@ == name@ && call_type == call_type_of(event@),
{
    KDEConnectEvent::PhoneCall {
        number: String::from_str(number),
        name: String::from_str(name),
        call_type: PhoneCallType::from(event),
    }
}

/// The devices the client listens to, as (id, name), each id once.
pub struct KDEConnectClient {
    pub devices: Vec<(String, String)>,
}

/// The registry as views.
pub open spec fn registry_view(devices: Seq<(String, String)>) -> Seq<(Seq<char>, Seq<char>)> {
    devices.map_values(|d: (String, String)| (d.0@, d.1@))
}

/// Whether the registry knows the device `id`.
pub open spec fn registered(devices: Seq<(String, String)>, id: Seq<char>) -> bool {
    exists|j: int| 0 <= j < devices.len() && devices[j].0@ == id
}

impl KDEConnectClient {
    /// No id is registered twice.
    pub open spec fn wf(&self) -> bool {
        forall|a: int, b: int|
            0 <= a < b < self.devices@.len() ==> self.devices@[a].0@ != self.devices@[b].0@
    }

    /// A client that listens to no device yet.
    pub fn new() -> (r: KDEConnectClient)
        ensures
            r.wf(),
            r.devices@.len() == 0,
    {
        KDEConnectClient { devices: Vec::new() }
    }

    /// The position of the device `id` in the registry.
    pub fn find_device(&self, id: &str) -> (r: Option<usize>)
        ensures
            r is None <==> !registered(self.devices@, id@),
            r matches Some(j) ==> j < self.devices@.len() && self.devices@[j as int].0@ == id@,
    {
        let key = String::from_str(id);
        let mut i: usize = 0;
        while i < self.devices.len()
            invariant
                i <= self.devices@.len(),
                key@ == id@,
                forall|j: int| 0 <= j < i ==> self.devices@[j].0@ != id@,
            decreases self.devices@.len() - i,
        {
            if self.devices[i].0 == key {
                return Some(i);
            }
            i = i + 1;
        }
        None
    }

    /// Whether the client already listens to the device `id`.
    pub fn knows_device(&self, id: &str) -> (r: bool)
        ensures
            r == registered(self.devices@, id@),
    {
        self.find_device(id).is_some()
    }

    /// Starts listening to a device: a device already known is left alone and
    /// raises nothing; a new one is registered and announced as connected.
    pub fn add_device(&mut self, id: &str, name: &str) -> (r: Option<KDEConnectEvent>)
        requires
            old(self).wf(),
        ensures
            final(self).wf(),
            registered(old(self).devices@, id@) ==> r is None && final(self).devices@ == old(
                self,
            ).devices@,
            !registered(old(self).devices@, id@) ==> registry_view(final(self).devices@)
                == registry_view(old(self).devices@).push((id@, name@)) && (r matches Some(
                KDEConnectEvent::DeviceConnected { name: n, id: i },
            ) && n@ == name@ && i@ == id@),
    {
        if self.knows_device(id) {
            return None;
        }
        self.devices.push((String::from_str(id), String::from_str(name)));
        proof {
            assert(registry_view(self.devices@) =~= registry_view(old(self).devices@).push(
                (id@, name@),
            ));
        }
        Some(KDEConnectEvent::DeviceConnected { name: String::from_str(name), id: String::from_str(id) })
    }

    /// Stops listening to a device the daemon removed, announcing it as
    /// disconnected under the name it was registered with; an unknown device
    /// raises nothing.
    pub fn remove_device(&mut self, id: &str) -> (r: Option<KDEConnectEvent>)
        requires
            old(self).wf(),
        ensures
            final(self).wf(),
            !registered(old(self).devices@, id@) ==> r is None && final(self).devices@ == old(
                self,
            ).devices@,
            registered(old(self).devices@, id@) ==> exists|j: int|
                0 <= j < old(self).devices@.len() && old(self).devices@[j].0@ == id@
                    && final(self).devices@ == old(self).devices@.remove(j) && (r matches Some(
                    KDEConnectEvent::DeviceDisconnected { name: n, id: i, reason },
                ) && n@ == old(self).devices@[j].1@ && i@ == id@ && reason@
                    == "Device Removed"@),
    {
        match self.find_device(id) {
            None => None,
            Some(j) => {
                let (_, name) = self.devices.remove(j);
                Some(
                    KDEConnectEvent::DeviceDisconnected {
                        name,
                        id: String::from_str(id),
                        reason: String::from_str("Device Removed"),
                    },
                )
            },
        }
    }
}

/// Removing a device right after adding it restores the registry and
/// announces it under the name it was added with: over the registry `add_device`
/// leaves, every entry `remove_device` may take for that id is the added one.
pub proof fn law_remove_undoes_add(
    before: Seq<(String, String)>,
    after: Seq<(String, String)>,
    id: Seq<char>,
    name: Seq<char>,
)
    requires
        forall|a: int, b: int| 0 <= a < b < before.len() ==> before[a].0@ != before[b].0@,
        !registered(before, id),
        registry_view(after) == registry_view(before).push((id, name)),
    ensures
        registered(after, id),
        forall|j: int|
            0 <= j < after.len() && after[j].0@ == id ==> registry_view(after.remove(j))
                == registry_view(before) && after[j].1@ == name,
{
    let n = before.len() as int;
    assert(registry_view(after).len() == after.len());
    assert(registry_view(after)[n] == (after[n].0@, after[n].1@));
    assert forall|j: int| 0 <= j < after.len() && after[j].0@ == id implies registry_view(
        after.remove(j),
    ) == registry_view(before) && after[j].1@ == name by {
        if j < n {
            assert(registry_view(after)[j] == registry_view(before)[j]);
            assert(registry_view(before)[j] == (before[j].0@, before[j].1@));
        }
        assert(j == n);
        assert forall|k: int| 0 <= k < n implies #[trigger] registry_view(after.remove(j))[k]
            == registry_view(before)[k] by {
            assert(after.remove(j)[k] == after[k]);
            assert(registry_view(after)[k] == (after[k].0@, after[k].1@));
        }
        assert(registry_view(after.remove(j)) =~= registry_view(before));
    }
}

} // verus!
