use creek::api::Window;
use creek::backends::window::desktop::{DesktopEvent, DesktopWindowState, LoopControl};
use creek::backends::window::embedded::EmbeddedWindow;

#[test]
fn embedded_window_is_always_open() {
    let mut w = EmbeddedWindow::new("title", 800, 600);
    assert!(w.is_open());
    for _ in 0..3 {
        w.update();
        assert!(w.is_open());
    }
}

#[test]
fn desktop_window_closes_on_request_and_stays_closed() {
    let mut s = DesktopWindowState::new();
    assert!(s.is_open());
    assert_eq!(s.on_event(DesktopEvent::Other), LoopControl::Continue);
    assert!(s.is_open());
    assert_eq!(s.on_event(DesktopEvent::CloseRequested), LoopControl::Exit);
    assert!(!s.is_open());
    assert_eq!(s.on_event(DesktopEvent::Other), LoopControl::Continue);
    assert!(!s.is_open());
}

#[test]
fn closed_window_never_reports_open_again() {
    let mut s = DesktopWindowState::new();
    assert_eq!(s.on_event(DesktopEvent::CloseRequested), LoopControl::Exit);
    for _ in 0..5 {
        s.on_event(DesktopEvent::Other);
        assert!(!s.is_open());
        s.on_event(DesktopEvent::CloseRequested);
        assert!(!s.is_open());
    }
}

#[test]
fn embedded_window_open_after_any_updates() {
    let mut w = EmbeddedWindow::new("", 0, 0);
    for _ in 0..100 {
        w.update();
    }
    assert!(w.is_open());
}
