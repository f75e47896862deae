use gtk_shell::bar::ipc::{
    focused_workspace_id, DesktopBackend, HyprlandIPCError, IPCEvent, NiriEvent, NiriIpc,
    WindowInfo, WindowManagerIPC,
};
use gtk_shell::bar::kdeconnect::{
    device_path, notification_path, phone_call_event, reachability_event, KDEConnectClient,
    KDEConnectCommand, KDEConnectEvent, NotificationSnapshot, PhoneCallType,
};
use gtk_shell::bar::media::{LoopStatus, MediaEvent, PlaybackStatus, PlayerState, UIState};
use gtk_shell::bar::notification::{
    pair_actions, CloseReason, NotificationEvent, NotificationServer, Urgency,
};
use gtk_shell::bar::redraw::Redraw;
use gtk_shell::bar::warp::WarpStatus;

fn strings(v: &[&str]) -> Vec<String> {
    v.iter().map(|s| s.to_string()).collect()
}

#[test]
fn notification_ids_are_fresh_or_replaced() {
    let mut server = NotificationServer::new();
    assert_eq!(server.assign_id(0), 1);
    assert_eq!(server.assign_id(0), 2);
    assert_eq!(server.assign_id(7), 7);
    assert_eq!(server.assign_id(0), 3);
    server.next_id = u32::MAX;
    assert_eq!(server.assign_id(0), 1);
}

#[test]
fn notify_pairs_actions_and_reads_urgency() {
    let mut server = NotificationServer::new();
    let (id, event) = server.notify(
        "app".to_string(),
        0,
        "icon".to_string(),
        "Summary".to_string(),
        "Body".to_string(),
        strings(&["default", "Open", "dismiss", "Dismiss", "dangling"]),
        Some(2),
        -1,
    );
    assert_eq!(id, 1);
    match event {
        NotificationEvent::Posted { id: posted, data } => {
            assert_eq!(posted, 1);
            assert_eq!(data.summary, "Summary");
            assert_eq!(
                data.actions,
                vec![
                    ("default".to_string(), "Open".to_string()),
                    ("dismiss".to_string(), "Dismiss".to_string())
                ]
            );
            assert_eq!(data.urgency, Urgency::Critical);
            assert_eq!(data.expire_timeout, -1);
        }
        NotificationEvent::Closed { .. } => panic!("expected a posted notification"),
    }
    let (_, event) = server.notify(
        String::new(), 0, String::new(), String::new(), String::new(), vec![], None, 0,
    );
    match event {
        NotificationEvent::Posted { data, .. } => assert_eq!(data.urgency, Urgency::Normal),
        NotificationEvent::Closed { .. } => panic!("expected a posted notification"),
    }
}

#[test]
fn urgency_bytes_and_close_codes() {
    assert_eq!(Urgency::from(0u8), Urgency::Low);
    assert_eq!(Urgency::from(1u8), Urgency::Normal);
    assert_eq!(Urgency::from(2u8), Urgency::Critical);
    assert_eq!(Urgency::from(9u8), Urgency::Normal);
    assert_eq!(Urgency::default(), Urgency::Normal);
    assert_eq!(CloseReason::Expired.code(), 1);
    assert_eq!(CloseReason::Dismissed.code(), 2);
    assert_eq!(CloseReason::Closed.code(), 3);
    assert_eq!(CloseReason::Undefined.code(), 4);
    assert!(pair_actions(&strings(&["only"])).is_empty());
}

#[test]
fn server_describes_itself() {
    let server = NotificationServer::new();
    assert_eq!(server.get_capabilities(), vec!["actions", "body", "body-markup"]);
    let (name, vendor, version, spec) = server.get_server_information("0.1.0");
    assert_eq!((name.as_str(), vendor.as_str(), version.as_str(), spec.as_str()), ("gtk_shell", "minearchive", "0.1.0", "1.2"));
    let (event, reason) = server.close_notification(5);
    assert!(matches!(event, NotificationEvent::Closed { id: 5 }));
    assert_eq!(reason, 3);
}

#[test]
fn phone_call_types_read_and_print() {
    assert_eq!(PhoneCallType::from("ringing".to_string()), PhoneCallType::Ringing);
    assert_eq!(PhoneCallType::from("talking".to_string()), PhoneCallType::Talking);
    assert_eq!(PhoneCallType::from("missedCall".to_string()), PhoneCallType::MissedCall);
    assert_eq!(PhoneCallType::from("Ringing".to_string()), PhoneCallType::Unknown);
    assert_eq!(PhoneCallType::MissedCall.to_text(), "missed");
    assert_eq!(PhoneCallType::Unknown.to_text(), "unknown");
}

#[test]
fn kdeconnect_events_read_as_log_lines() {
    let e = KDEConnectEvent::DeviceConnected { name: "Pixel".to_string(), id: "abc".to_string() };
    assert_eq!(e.to_text(), "device connected: Pixel (abc)");
    let e = reachability_event("abc", "Pixel", false);
    assert_eq!(e.to_text(), "device disconnected: Pixel (abc): Device unreachable");
    let e = phone_call_event("123", "Ann", "ringing".to_string());
    assert_eq!(e.to_text(), "ringing call: Ann <123>");
    let e = KDEConnectEvent::SMSMessage("123".to_string(), "Ann".to_string(), "hi".to_string());
    assert_eq!(e.to_text(), "sms from Ann <123>: hi");
    let data = NotificationSnapshot { title: "T".to_string(), text: "x".to_string(), ..Default::default() };
    let e = KDEConnectEvent::NotificationPosted { device_id: "d".to_string(), id: "7".to_string(), data: data.clone() };
    assert_eq!(e.to_text(), "notification [7]: T - x");
    let e = KDEConnectEvent::NotificationUpdated { device_id: "d".to_string(), id: "7".to_string(), data };
    assert_eq!(e.to_text(), "notification updated [7]: T - x");
    let e = KDEConnectEvent::NotificationRemoved { device_id: "d".to_string(), id: "7".to_string() };
    assert_eq!(e.to_text(), "notification removed: d/7");
    let e = KDEConnectEvent::AllNotificationsRemoved { device_id: "d".to_string() };
    assert_eq!(e.to_text(), "all notifications removed: d");
    assert_eq!(KDEConnectEvent::FileTransferRequest("f".to_string()).to_text(), "file transfer request: f");
    assert_eq!(KDEConnectEvent::FileTransferRequestReject("g".to_string()).to_text(), "file transfer rejected: g");
}

#[test]
fn kdeconnect_paths() {
    assert_eq!(device_path("abc"), "/modules/kdeconnect/devices/abc");
    assert_eq!(
        KDEConnectCommand::SendPing { device_id: "abc".to_string() }.object_path(),
        "/modules/kdeconnect/devices/abc/ping"
    );
    assert_eq!(
        KDEConnectCommand::Ring { device_id: "abc".to_string() }.object_path(),
        "/modules/kdeconnect/devices/abc/findmyphone"
    );
    assert_eq!(
        KDEConnectCommand::ShareText { device_id: "abc".to_string(), text: "t".to_string() }.object_path(),
        "/modules/kdeconnect/devices/abc/share"
    );
    assert_eq!(
        notification_path("/modules/kdeconnect/devices/abc", "9"),
        "/modules/kdeconnect/devices/abc/notifications/9"
    );
}

#[test]
fn device_registry_adds_once_and_removes_with_name() {
    let mut client = KDEConnectClient::new();
    assert!(matches!(client.add_device("a", "Phone"), Some(KDEConnectEvent::DeviceConnected { .. })));
    assert!(client.add_device("a", "Other").is_none());
    assert!(client.add_device("b", "Tablet").is_some());
    assert!(client.knows_device("b"));
    match client.remove_device("a") {
        Some(KDEConnectEvent::DeviceDisconnected { name, id, reason }) => {
            assert_eq!((name.as_str(), id.as_str(), reason.as_str()), ("Phone", "a", "Device Removed"));
        }
        _ => panic!("expected a disconnect"),
    }
    assert!(client.remove_device("a").is_none());
    assert!(!client.knows_device("a"));
    assert_eq!(client.devices.len(), 1);
}

#[test]
fn backend_follows_desktop_name() {
    assert_eq!(WindowManagerIPC::backend(Some("niri")), DesktopBackend::Niri);
    assert_eq!(WindowManagerIPC::backend(Some("hyprland")), DesktopBackend::Hyprland);
    assert_eq!(WindowManagerIPC::backend(Some("Hyprland")), DesktopBackend::Unknown);
    assert_eq!(WindowManagerIPC::backend(None), DesktopBackend::Unset);
    assert_eq!(WindowManagerIPC::connect(DesktopBackend::Niri, false), WindowManagerIPC::ConnectionFailed);
    assert_eq!(WindowManagerIPC::connect(DesktopBackend::Niri, true), WindowManagerIPC::Niri);
    assert_eq!(WindowManagerIPC::connect(DesktopBackend::Unset, true), WindowManagerIPC::NoDesktop);
}

#[test]
fn workspace_and_window_queries() {
    let ws = vec![(3u64, false), (7u64, true), (9u64, true)];
    assert_eq!(focused_workspace_id(&ws), 7);
    assert_eq!(focused_workspace_id(&vec![(1, false)]), 0);
    assert_eq!(focused_workspace_id(&vec![((1u64 << 32) + 5, true)]), 5);
    assert_eq!(WindowManagerIPC::Niri.get_current_workspace(&ws), 7);
    assert_eq!(WindowManagerIPC::NoDesktop.get_current_workspace(&ws), u32::MAX);
    assert_eq!(WindowManagerIPC::Niri.get_current_window_name(Some("t".to_string())), Some("t".to_string()));
    assert_eq!(WindowManagerIPC::Unknown.get_current_window_name(Some("t".to_string())), None);
    assert_eq!(HyprlandIPCError::NoInstance.message(), "no hyprland instance found");
    assert_eq!(
        HyprlandIPCError::EventListenerError("boom".to_string()).message(),
        "event listener error: boom"
    );
}

fn window(id: u64, title: &str, focused: bool) -> WindowInfo {
    WindowInfo { id, title: Some(title.to_string()), is_focused: focused }
}

#[test]
fn niri_events_fold_into_focus_changes() {
    let mut ipc = NiriIpc::new();
    assert_eq!(
        ipc.on_event(NiriEvent::WorkspaceActivated { id: 2 }),
        Some(IPCEvent::FocusedWorkspaceChanged(0, 2))
    );
    assert_eq!(ipc.on_event(NiriEvent::WorkspaceActivated { id: 2 }), None);
    assert_eq!(
        ipc.on_event(NiriEvent::WindowsChanged { windows: vec![window(1, "one", false), window(2, "two", false)] }),
        None
    );
    assert_eq!(
        ipc.on_event(NiriEvent::WindowFocusChanged { id: Some(2) }),
        Some(IPCEvent::FocusedWindowTitleChanged(Some("two".to_string())))
    );
    assert_eq!(
        ipc.on_event(NiriEvent::WindowOpenedOrChanged { window: window(5, "five", true) }),
        Some(IPCEvent::FocusedWindowTitleChanged(Some("five".to_string())))
    );
    assert_eq!(ipc.on_event(NiriEvent::WindowOpenedOrChanged { window: window(1, "uno", false) }), None);
    assert_eq!(
        ipc.on_event(NiriEvent::WindowOpenedOrChanged { window: window(5, "cinco", false) }),
        Some(IPCEvent::FocusedWindowTitleChanged(Some("cinco".to_string())))
    );
    assert_eq!(ipc.on_event(NiriEvent::WindowClosed { id: 1 }), None);
    assert_eq!(
        ipc.on_event(NiriEvent::WindowFocusChanged { id: Some(1) }),
        Some(IPCEvent::FocusedWindowTitleChanged(None))
    );
    assert_eq!(
        ipc.on_event(NiriEvent::WindowFocusChanged { id: None }),
        Some(IPCEvent::FocusedWindowTitleChanged(None))
    );
    assert_eq!(ipc.on_event(NiriEvent::Other), None);
    assert_eq!(ipc.focused_ws_id, 2);
    assert_eq!(ipc.focused_window_id, 5);
}

#[test]
fn player_state_follows_events() {
    let mut p = PlayerState::new("spotify".to_string());
    p.apply(MediaEvent::Playing);
    assert_eq!(p.status, PlaybackStatus::Playing);
    p.apply(MediaEvent::VolumeChanged(0.5f64.to_bits()));
    assert_eq!(p.volume.map(f64::from_bits), Some(0.5));
    p.apply(MediaEvent::ShuffleToggled(true));
    p.apply(MediaEvent::LoopingChanged(LoopStatus::Playlist));
    p.apply(MediaEvent::TrackChanged { title: Some("Song".to_string()), artists: Some(vec!["A".to_string()]) });
    assert!(p.shuffle);
    assert_eq!(p.loop_status, LoopStatus::Playlist);
    assert_eq!(p.title.as_deref(), Some("Song"));
    p.apply(MediaEvent::PlayerShutDown);
    assert!(!p.active);
    assert_eq!(p.status, PlaybackStatus::Stopped);
}

#[test]
fn ui_state_keeps_active_players_once() {
    let mut ui = UIState::new();
    let mut a = PlayerState::new("a".to_string());
    let b = PlayerState::new("b".to_string());
    assert_eq!(ui.on_mpris(&[Redraw::Nothing, Redraw::Now], a.clone()), Redraw::Now);
    ui.record_player(b.clone());
    a.apply(MediaEvent::Paused);
    ui.record_player(a.clone());
    assert_eq!(ui.players.len(), 2);
    assert_eq!(ui.players.iter().filter(|p| p.identity == "a").count(), 1);
    assert_eq!(ui.players[ui.find_player(&"a".to_string()).unwrap()].status, PlaybackStatus::Paused);
    a.apply(MediaEvent::PlayerShutDown);
    ui.record_player(a);
    assert!(ui.find_player(&"a".to_string()).is_none());
    assert_eq!(ui.players, vec![b]);
    assert_eq!(ui.on_warp(&[], WarpStatus::new("Connected", None)), Redraw::Nothing);
    assert_eq!(ui.warp.as_ref().map(|w| w.status.as_str()), Some("Connected"));
}
