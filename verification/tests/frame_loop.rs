use cardinal::scheduler::DEFAULT_FRAME_INTERVAL;
use cardinal::{
    key_event, pace, step, Action, CardinalError, Directive, Event, GFXError, InputEvent,
    LoopState, Scheduler, StateError, SurfaceConfiguration, TextureFormat,
};

fn idle() -> Scheduler {
    Scheduler::new(
        SurfaceConfiguration::new(TextureFormat::Bgra8Unorm, 640, 480),
        DEFAULT_FRAME_INTERVAL,
    )
}

#[test]
fn resize_to_zero_is_clamped_to_one() {
    let mut config = SurfaceConfiguration::new(TextureFormat::Bgra8Unorm, 640, 480);
    config.resize(0, 0);
    assert_eq!((config.width, config.height), (1, 1));
    assert_eq!(config.format, TextureFormat::Bgra8Unorm);
}

#[test]
fn resize_keeps_nonzero_sides() {
    let config = SurfaceConfiguration::new(TextureFormat::Rgba8Unorm, 0, 7);
    assert_eq!((config.width, config.height), (1, 7));
    let resized = config.resized(1920, 0);
    assert_eq!((resized.width, resized.height), (1920, 1));
    assert_eq!(resized.resized(1920, 0), resized);
}

#[test]
fn new_scheduler_is_idle() {
    let s = idle();
    assert_eq!(s.state, LoopState::Idle);
    assert_eq!(s.target, 16_666_667);
    assert_eq!(s.elapsed, 0);
    assert!(!s.retried);
    assert!(!s.acquired);
    assert_eq!((s.config.width, s.config.height), (640, 480));
}

#[test]
fn pacing_waits_for_the_rest_of_the_interval() {
    assert_eq!(pace(1000, 400), (Directive::WaitFor { nanos: 600 }, 400));
    assert_eq!(pace(1000, 999), (Directive::WaitFor { nanos: 1 }, 999));
    assert_eq!(pace(1000, 0), (Directive::WaitFor { nanos: 1000 }, 0));
}

#[test]
fn pacing_redraws_once_the_interval_has_passed() {
    assert_eq!(pace(1000, 1000), (Directive::Redraw, 0));
    assert_eq!(pace(1000, 5000), (Directive::Redraw, 0));
    assert_eq!(pace(0, 0), (Directive::Redraw, 0));
}

#[test]
fn settle_before_the_interval_waits() {
    let (s, action) = step(idle(), Event::Settled { elapsed: 6_666_667 });
    assert_eq!(action, Action::WaitFor { nanos: 10_000_000 });
    assert_eq!(s.state, LoopState::Idle);
    assert_eq!(s.elapsed, 6_666_667);
}

#[test]
fn settle_after_the_interval_redraws_and_resets() {
    let (s, action) = step(idle(), Event::Settled { elapsed: 16_666_667 });
    assert_eq!(action, Action::RequestRedraw);
    assert_eq!(s.state, LoopState::Idle);
    assert_eq!(s.elapsed, 0);
}

#[test]
fn close_while_idle_stops_without_redraw() {
    let (s, action) = step(idle(), Event::CloseRequested);
    assert_eq!(action, Action::Exit);
    assert_eq!(s.state, LoopState::Stopped);
    let (s, action) = step(s, Event::Settled { elapsed: 1_000_000_000 });
    assert_eq!(action, Action::Nothing);
    assert_eq!(s.state, LoopState::Stopped);
    let (s, action) = step(s, Event::RedrawDue);
    assert_eq!(action, Action::Nothing);
    assert_eq!(s.state, LoopState::Stopped);
}

#[test]
fn cancel_input_stops_the_loop() {
    let (s, action) = step(idle(), Event::CancelPressed);
    assert_eq!(action, Action::Exit);
    assert_eq!(s.state, LoopState::Stopped);
}

#[test]
fn other_input_goes_to_the_tree() {
    let input = InputEvent::Key { code: 30, pressed: true };
    let (s, action) = step(idle(), Event::Input(input));
    assert_eq!(action, Action::ForwardInput(input));
    assert_eq!(s, idle());
}

#[test]
fn size_change_reconfigures_then_returns_to_idle() {
    let (s, action) = step(idle(), Event::SizeChanged { width: 0, height: 0 });
    let expected = SurfaceConfiguration::new(TextureFormat::Bgra8Unorm, 1, 1);
    assert_eq!(action, Action::Resize(expected));
    assert_eq!(s.state, LoopState::Resizing);
    assert_eq!(s.config, expected);
    let (s, action) = step(s, Event::RedrawDue);
    assert_eq!(action, Action::Nothing);
    assert_eq!(s.state, LoopState::Resizing);
    let (s, action) = step(s, Event::TreeDone);
    assert_eq!(action, Action::Nothing);
    assert_eq!(s.state, LoopState::Idle);
    assert_eq!(s.config, expected);
}

#[test]
fn same_size_twice_gives_same_configuration() {
    let event = Event::SizeChanged { width: 300, height: 200 };
    let (s1, a1) = step(idle(), event);
    let (s2, _) = step(s1, Event::TreeDone);
    let (s3, a3) = step(s2, event);
    assert_eq!(a1, a3);
    assert_eq!(s1, s3);
}

#[test]
fn redraw_acquires_renders_and_presents() {
    let (s, action) = step(idle(), Event::RedrawDue);
    assert_eq!(action, Action::AcquireFrame);
    assert_eq!(s.state, LoopState::Rendering);
    let (s, action) = step(s, Event::TreeDone);
    assert_eq!(action, Action::Nothing);
    assert_eq!(s.state, LoopState::Rendering);
    let (s, action) = step(s, Event::FrameAcquired);
    assert_eq!(action, Action::Render);
    assert!(s.acquired);
    let (s, action) = step(s, Event::TreeDone);
    assert_eq!(action, Action::Present);
    assert_eq!(s.state, LoopState::Idle);
    assert!(!s.acquired);
}

#[test]
fn acquisition_failure_then_success_reconfigures_once() {
    let (s, _) = step(idle(), Event::RedrawDue);
    let (s, action) = step(s, Event::AcquireFailed);
    assert_eq!(action, Action::ReconfigureAndAcquire(idle().config));
    assert_eq!(s.state, LoopState::Rendering);
    assert!(s.retried);
    let (s, action) = step(s, Event::FrameAcquired);
    assert_eq!(action, Action::Render);
    let (s, action) = step(s, Event::TreeDone);
    assert_eq!(action, Action::Present);
    assert_eq!(s.state, LoopState::Idle);
    let (s, _) = step(s, Event::RedrawDue);
    assert!(!s.retried);
}

#[test]
fn second_acquisition_failure_is_fatal() {
    let (s, _) = step(idle(), Event::RedrawDue);
    let (s, _) = step(s, Event::AcquireFailed);
    let (s, action) = step(s, Event::AcquireFailed);
    assert_eq!(action, Action::Fail(CardinalError::GFX(GFXError::SurfaceLost)));
    assert_eq!(s.state, LoopState::Stopped);
}

#[test]
fn tree_failure_ends_the_loop_with_that_error() {
    let error = CardinalError::State(StateError { code: 1 });
    let (s, _) = step(idle(), Event::RedrawDue);
    let (s, _) = step(s, Event::FrameAcquired);
    let (s, action) = step(s, Event::TreeFailed(error));
    assert_eq!(action, Action::Fail(error));
    assert_eq!(s.state, LoopState::Stopped);
    let (s, action) = step(idle(), Event::TreeFailed(error));
    assert_eq!(action, Action::Fail(error));
    assert_eq!(s.state, LoopState::Stopped);
}

#[test]
fn only_the_cancel_key_going_down_closes() {
    let down = InputEvent::Key { code: 1, pressed: true };
    let up = InputEvent::Key { code: 1, pressed: false };
    assert_eq!(key_event(true, down), Event::CancelPressed);
    assert_eq!(key_event(true, up), Event::Input(up));
    assert_eq!(key_event(false, down), Event::Input(down));
    assert_eq!(key_event(false, up), Event::Input(up));
}

#[test]
fn inputs_that_are_no_keys_go_to_the_tree() {
    let moved = InputEvent::PointerMoved { x: 10, y: -2 };
    assert_eq!(key_event(true, moved), Event::Input(moved));
    assert_eq!(key_event(false, InputEvent::Other), Event::Input(InputEvent::Other));
    let (s, action) = step(idle(), Event::Input(InputEvent::Scroll { dx: 0, dy: 3 }));
    assert_eq!(action, Action::ForwardInput(InputEvent::Scroll { dx: 0, dy: 3 }));
    assert_eq!(s, idle());
}
