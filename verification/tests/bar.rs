use gtk_shell::bar::clock::Clock;
use gtk_shell::bar::config::{source_is_blank, Configuration};
use gtk_shell::bar::frame::{FrameAction, Screen};
use gtk_shell::bar::redraw::Redraw;
use gtk_shell::bar::seat::pick_drop_mime;
use gtk_shell::bar::shell::Shell;
use gtk_shell::pointer::button;

fn strings(v: &[&str]) -> Vec<String> {
    v.iter().map(|s| s.to_string()).collect()
}

#[test]
fn redraw_combines_to_most_urgent() {
    assert_eq!(Redraw::combine(&[]), Redraw::Nothing);
    assert_eq!(Redraw::combine(&[Redraw::Nothing, Redraw::Now]), Redraw::Now);
    assert_eq!(Redraw::combine(&[Redraw::Animating, Redraw::Now, Redraw::Nothing]), Redraw::Animating);
    assert_eq!(Redraw::default(), Redraw::Nothing);
    assert!(Redraw::Now.wants_paint());
    assert!(!Redraw::Nothing.wants_paint());
    // The order agrees with the derived ordering the components rely on.
    assert!(Redraw::Nothing < Redraw::Now && Redraw::Now < Redraw::Animating);
    for a in [Redraw::Nothing, Redraw::Now, Redraw::Animating] {
        for b in [Redraw::Nothing, Redraw::Now, Redraw::Animating] {
            assert_eq!(a.max_with(b), std::cmp::max(a, b));
            assert_eq!(a.max_with(b), b.max_with(a));
        }
    }
}

#[test]
fn screen_paints_on_first_configure_and_paces_frames() {
    let mut s = Screen::new();
    // No size yet: a repaint waits for the configure.
    assert_eq!(s.request_redraw(), FrameAction::Wait);
    assert!(s.needs_redraw);
    // The first configure paints, with 0 meaning "pick": 256.
    assert_eq!(s.configure(0, 32), FrameAction::Paint);
    assert_eq!((s.width, s.height), (256, 32));
    assert!(s.frame_pending && !s.needs_redraw);
    // A frame is in flight: the request is remembered.
    assert_eq!(s.request_redraw(), FrameAction::Wait);
    assert!(s.needs_redraw);
    // Its callback paints it.
    assert_eq!(s.frame_done(), FrameAction::Paint);
    // Nothing more was asked: the next callback is idle.
    assert_eq!(s.frame_done(), FrameAction::Wait);
    assert!(!s.frame_pending);
    // A later configure resizes without painting.
    assert_eq!(s.configure(800, 40), FrameAction::Wait);
    assert_eq!((s.width, s.height), (800, 40));
    assert_eq!(s.request_redraw(), FrameAction::Paint);
}

#[test]
fn shell_dispatch_paints_screens_that_asked() {
    let mut shell = Shell::new();
    shell.new_output();
    shell.new_output();
    shell.new_output();
    for i in 0..3 {
        assert_eq!(shell.configure(i, 100, 30), FrameAction::Paint);
    }
    assert_eq!(shell.frame(0), FrameAction::Wait);
    assert_eq!(shell.frame(2), FrameAction::Wait);
    // Screen 1 still has its first frame in flight.
    let painted = shell.dispatch(&[Redraw::Now, Redraw::Animating, Redraw::Nothing]);
    assert_eq!(painted, vec![0]);
    assert!(shell.screens[1].needs_redraw);
    assert!(!shell.screens[2].needs_redraw);
    assert_eq!(shell.frame(1), FrameAction::Paint);
    assert_eq!(shell.request_redraw(9), FrameAction::Wait);
}

#[test]
fn shell_tracks_drag_and_close() {
    let mut shell = Shell::new();
    shell.new_output();
    assert_eq!(shell.take_dragging_screen(), None);
    shell.drag_enter(0);
    assert_eq!(shell.take_dragging_screen(), Some(0));
    assert_eq!(shell.take_dragging_screen(), None);
    shell.closed();
    assert!(shell.exit);
    shell.output_destroyed(0);
    assert!(shell.screens.is_empty());
}

#[test]
fn drop_mime_prefers_uri_list_then_utf8_text() {
    let offer = strings(&["image/png", "text/plain", "text/plain;charset=utf-8"]);
    assert_eq!(pick_drop_mime(&offer).as_deref(), Some("text/plain;charset=utf-8"));
    let offer = strings(&["text/plain", "text/uri-list"]);
    assert_eq!(pick_drop_mime(&offer).as_deref(), Some("text/uri-list"));
    let offer = strings(&["application/x-thing", "image/png"]);
    assert_eq!(pick_drop_mime(&offer).as_deref(), Some("application/x-thing"));
    assert_eq!(pick_drop_mime(&[]), None);
}

#[test]
fn configuration_reload_takes_changed_files_only() {
    let mut running = Configuration::load(None);
    assert_eq!(running.name, "");
    assert!(!running.reload(None));
    assert!(!running.reload(Some(Configuration { name: String::new() })));
    assert!(running.reload(Some(Configuration { name: "bar".to_string() })));
    assert_eq!(running.name, "bar");
    assert!(!running.reload(Some(Configuration { name: "bar".to_string() })));
    assert!(running.is_changed(&Configuration::default()));
    assert!(running == Configuration { name: "bar".to_string() });
    let loaded = Configuration::load(Some(Configuration { name: "x".to_string() }));
    assert_eq!(loaded.name, "x");
}

#[test]
fn blank_configuration_sources() {
    assert!(source_is_blank(""));
    assert!(source_is_blank(" \n\t \u{3000}"));
    assert!(!source_is_blank("  name = \"x\"\n"));
}

#[test]
fn clock_ticks_with_local_time_and_toggles_on_left_click() {
    let mut clock = Clock::new(2);
    assert_eq!(clock.tick(), 2);
    let t = clock.time.clone();
    assert_eq!(t.len(), 8);
    let b = t.as_bytes();
    assert_eq!((b[2], b[5]), (b':', b':'));
    let hour: u32 = t[0..2].parse().unwrap();
    assert!(hour <= 23);
    assert!(clock.toward_end);
    assert_eq!(clock.on_press(button::RIGHT, true), Redraw::Nothing);
    assert_eq!(clock.on_press(button::LEFT, false), Redraw::Nothing);
    assert_eq!(clock.on_press(button::LEFT, true), Redraw::Now);
    assert!(!clock.toward_end);
    assert_eq!(clock.on_easing_updated("a"), Redraw::Now);
    assert_eq!(clock.on_easing_updated("b"), Redraw::Nothing);
    assert_eq!(clock.after_paint(false), Redraw::Animating);
    assert_eq!(clock.after_paint(true), Redraw::Nothing);
}

#[test]
fn redraw_all_covers_every_live_screen() {
    let mut shell = Shell::new();
    assert_eq!(shell.new_output(), 0);
    assert_eq!(shell.new_output(), 1);
    assert_eq!(shell.new_output(), 2);
    shell.configure(0, 10, 10);
    shell.configure(2, 10, 10);
    shell.frame(2);
    shell.output_destroyed(1);
    assert_eq!(shell.counter, 3);
    // Screen 0 has a frame in flight; the old number 2 is past the end.
    assert_eq!(shell.request_redraw_all(), vec![1]);
    assert!(shell.screens[0].needs_redraw);
}
