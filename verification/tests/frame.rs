use creek::backends::io_vulkanwinit::frame::{FrameAction, FrameEvent, FrameFailure, FrameLoop, FramePhase, WindowEventKind};

fn redraw() -> FrameEvent {
    FrameEvent::Window(WindowEventKind::RedrawRequested)
}

#[test]
fn a_redraw_walks_through_the_frame_steps() {
    let mut f = FrameLoop::new(3);
    assert_eq!(f.step(redraw()), FrameAction::WaitForFence { slot: 0 });
    assert_eq!(f.step(FrameEvent::Done), FrameAction::ResetFence { slot: 0 });
    assert_eq!(f.step(FrameEvent::Done), FrameAction::AcquireImage { slot: 0 });
    assert_eq!(f.step(FrameEvent::ImageAcquired(2)), FrameAction::RecordAndSubmit { slot: 0, image: 2 });
    assert_eq!(f.step(FrameEvent::Done), FrameAction::Present { slot: 0, image: 2 });
    assert_eq!(f.step(FrameEvent::Done), FrameAction::Continue);
    assert_eq!(f.frame_index, 1);
    assert_eq!(f.phase, FramePhase::Idle);
}

#[test]
fn frames_are_counted() {
    let mut f = FrameLoop::new(2);
    for n in 0..5usize {
        assert_eq!(f.frame_index, n);
        f.step(redraw());
        f.step(FrameEvent::Done);
        f.step(FrameEvent::Done);
        f.step(FrameEvent::ImageAcquired((n % 2) as u32));
        f.step(FrameEvent::Done);
        f.step(FrameEvent::Done);
    }
    assert_eq!(f.frame_index, 5);
}

#[test]
fn close_request_exits_and_other_events_are_ignored() {
    let mut f = FrameLoop::new(2);
    assert_eq!(f.step(FrameEvent::Window(WindowEventKind::Other)), FrameAction::Continue);
    assert_eq!(f.step(FrameEvent::Done), FrameAction::Continue);
    assert_eq!(f.step(FrameEvent::Window(WindowEventKind::CloseRequested)), FrameAction::ExitLoop);
    assert_eq!(f, FrameLoop::new(2));
}

#[test]
fn failures_stop_drawing() {
    let mut f = FrameLoop::new(2);
    f.step(redraw());
    assert_eq!(f.step(FrameEvent::Failed), FrameAction::Abort(FrameFailure::FenceWait));
    assert_eq!(f.phase, FramePhase::Halted);
    assert_eq!(f.step(redraw()), FrameAction::Continue);
    assert_eq!(f.step(FrameEvent::Window(WindowEventKind::CloseRequested)), FrameAction::Continue);

    let mut g = FrameLoop::new(2);
    g.step(redraw());
    g.step(FrameEvent::Done);
    assert_eq!(g.step(FrameEvent::Failed), FrameAction::Abort(FrameFailure::FenceReset));

    let mut h = FrameLoop::new(2);
    h.step(redraw());
    h.step(FrameEvent::Done);
    h.step(FrameEvent::Done);
    assert_eq!(h.step(FrameEvent::Failed), FrameAction::Abort(FrameFailure::Acquire));

    let mut k = FrameLoop::new(2);
    k.step(redraw());
    k.step(FrameEvent::Done);
    k.step(FrameEvent::Done);
    k.step(FrameEvent::ImageAcquired(0));
    k.step(FrameEvent::Done);
    assert_eq!(k.step(FrameEvent::Failed), FrameAction::Abort(FrameFailure::Present));
    assert_eq!(k.frame_index, 0);
}

#[test]
fn an_image_without_resources_stops_drawing() {
    let mut f = FrameLoop::new(2);
    f.step(redraw());
    f.step(FrameEvent::Done);
    f.step(FrameEvent::Done);
    assert_eq!(f.step(FrameEvent::ImageAcquired(2)), FrameAction::Abort(FrameFailure::ImageOutOfRange));
}

#[test]
fn frame_failure_messages() {
    assert_eq!(FrameFailure::FenceWait.message(), "Wait for fence failed.");
    assert_eq!(FrameFailure::FenceReset.message(), "Reset fences failed.");
}
