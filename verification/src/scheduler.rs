//! The frame loop as a state machine: each host event or finished piece of
//! outside work goes in, the next state and the work to do come out.
use vstd::prelude::*;
use crate::component::InputEvent;
use crate::error::GFXError;
use crate::surface::SurfaceConfiguration;
use crate::CardinalError;

verus! {

/// A sixtieth of a second, in nanoseconds.
pub const DEFAULT_FRAME_INTERVAL: u64 = 16_666_667;

/// Where the loop stands.
#[derive(Clone, Copy, Debug, PartialEq, Eq, Structural)]
pub enum LoopState {
    /// Waiting for the next wake or host event.
    Idle,
    /// The tree is being told of a new size.
    Resizing,
    /// A frame is being acquired, rendered and presented.
    Rendering,
    /// Exit was requested or a failure was fatal. Nothing follows.
    Stopped,
}

/// What reaches the loop.
#[derive(Clone, Copy, Debug, PartialEq, Eq, Structural)]
pub enum Event {
    /// The host has delivered all pending events; `elapsed` nanoseconds have
    /// passed since the last redraw request.
    Settled { elapsed: u64 },
    /// The window has a new size, or its scale factor changed.
    SizeChanged { width: u32, height: u32 },
    CloseRequested,
    /// The input that is set apart to cancel the program.
    CancelPressed,
    /// Any other input.
    Input(InputEvent),
    RedrawDue,
    FrameAcquired,
    AcquireFailed,
    /// The tree call that was asked for returned without error.
    TreeDone,
    /// The tree call that was asked for returned this error.
    TreeFailed(CardinalError),
}

/// Whether the input is a key going down.
pub open spec fn is_key_down(input: InputEvent) -> bool {
    input matches InputEvent::Key { pressed, .. } && pressed
}

/// The event that an input gives: the cancel key going down is a close
/// trigger, everything else is input for the tree. `cancel_key` says
/// whether the input comes from the key that is set apart to cancel.
pub fn key_event(cancel_key: bool, input: InputEvent) -> (e: Event)
    ensures
        e == if cancel_key && is_key_down(input) {
            Event::CancelPressed
        } else {
            Event::Input(input)
        },
{
    match input {
        InputEvent::Key { code, pressed } => {
            if cancel_key && pressed {
                Event::CancelPressed
            } else {
                Event::Input(input)
            }
        },
        _ => Event::Input(input),
    }
}

/// The event that tells the loop how a tree call ended.
pub open spec fn completion(failure: Option<CardinalError>) -> Event {
    match failure {
        None => Event::TreeDone,
        Some(error) => Event::TreeFailed(error),
    }
}

/// What the loop's owner is to do next.
#[derive(Clone, Copy, Debug, PartialEq, Eq, Structural)]
pub enum Action {
    Nothing,
    RequestRedraw,
    /// Sleep until this many nanoseconds have passed or an event arrives.
    WaitFor { nanos: u64 },
    /// Configure the surface so, then call the tree's `resize`.
    Resize(SurfaceConfiguration),
    /// Hand the input to the tree's `frame`.
    ForwardInput(InputEvent),
    AcquireFrame,
    /// Configure the surface so, then try once more to acquire a frame.
    ReconfigureAndAcquire(SurfaceConfiguration),
    /// Call the tree's `render` on the acquired frame.
    Render,
    Present,
    Exit,
    /// End the program with this error.
    Fail(CardinalError),
}

/// What a settle point asks for.
#[derive(Clone, Copy, Debug, PartialEq, Eq, Structural)]
pub enum Directive {
    Redraw,
    WaitFor { nanos: u64 },
}

/// The directive at a settle point, and the elapsed time that is kept.
pub open spec fn pace_spec(target: u64, elapsed: u64) -> (Directive, u64) {
    if elapsed >= target {
        (Directive::Redraw, 0u64)
    } else {
        (Directive::WaitFor { nanos: (target - elapsed) as u64 }, elapsed)
    }
}

/// Decides at a settle point: once the target interval has passed, redraw
/// and start counting anew; before that, wait for what is left of it.
pub fn pace(target: u64, elapsed: u64) -> (r: (Directive, u64))
    ensures
        r == pace_spec(target, elapsed),
{
    if elapsed >= target {
        (Directive::Redraw, 0)
    } else {
        (Directive::WaitFor { nanos: target - elapsed }, elapsed)
    }
}

/// The loop's whole state.
#[derive(Clone, Copy, Debug, PartialEq, Eq, Structural)]
pub struct Scheduler {
    pub state: LoopState,
    /// The target frame interval, in nanoseconds.
    pub target: u64,
    /// Nanoseconds since the last redraw request, as of the last settle
    /// point.
    pub elapsed: u64,
    /// Whether the surface was already reconfigured for the frame that is
    /// being acquired.
    pub retried: bool,
    /// Whether the frame that is under way has been acquired.
    pub acquired: bool,
    pub config: SurfaceConfiguration,
}

impl Scheduler {
    pub open spec fn wf(self) -> bool {
        self.config.wf()
    }

    /// Whether a frame is under way and has been acquired.
    pub open spec fn holds_frame(self) -> bool {
        self.state == LoopState::Rendering && self.acquired
    }

    pub open spec fn stopped(self) -> Scheduler {
        Scheduler { state: LoopState::Stopped, ..self }
    }

    pub open spec fn idle(self) -> Scheduler {
        Scheduler { state: LoopState::Idle, ..self }
    }

    /// The state a loop starts in: idle, with nothing under way, and with
    /// each side of the surface at least one.
    pub open spec fn initial(config: SurfaceConfiguration, target: u64) -> Scheduler {
        Scheduler {
            state: LoopState::Idle,
            target,
            elapsed: 0,
            retried: false,
            acquired: false,
            config: config.resized_spec(config.width, config.height),
        }
    }

    /// An idle loop for a surface with this configuration.
    pub fn new(config: SurfaceConfiguration, target: u64) -> (r: Scheduler)
        ensures
            r == Scheduler::initial(config, target),
            r.wf(),
    {
        Scheduler {
            state: LoopState::Idle,
            target,
            elapsed: 0,
            retried: false,
            acquired: false,
            config: config.resized(config.width, config.height),
        }
    }
}

/// What an idle loop does with an event.
pub open spec fn step_idle(s: Scheduler, e: Event) -> (Scheduler, Action) {
    match e {
        Event::Settled { elapsed } => match pace_spec(s.target, elapsed).0 {
            Directive::Redraw => (Scheduler { elapsed: 0, ..s }, Action::RequestRedraw),
            Directive::WaitFor { nanos } => (Scheduler { elapsed, ..s }, Action::WaitFor { nanos }),
        },
        Event::SizeChanged { width, height } => {
            let config = s.config.resized_spec(width, height);
            (Scheduler { state: LoopState::Resizing, config, ..s }, Action::Resize(config))
        },
        Event::Input(input) => (s, Action::ForwardInput(input)),
        Event::RedrawDue => (
            Scheduler { state: LoopState::Rendering, retried: false, acquired: false, ..s },
            Action::AcquireFrame,
        ),
        _ => (s, Action::Nothing),
    }
}

/// What a loop does with an event while a frame is under way. Until the
/// frame is acquired only the outcome of an acquisition counts; after that
/// only the outcome of the tree's `render`.
pub open spec fn step_rendering(s: Scheduler, e: Event) -> (Scheduler, Action) {
    if s.acquired {
        match e {
            Event::TreeDone => (Scheduler { acquired: false, ..s.idle() }, Action::Present),
            _ => (s, Action::Nothing),
        }
    } else {
        match e {
            Event::FrameAcquired => (Scheduler { acquired: true, ..s }, Action::Render),
            Event::AcquireFailed => if s.retried {
                (s.stopped(), Action::Fail(CardinalError::GFX(GFXError::SurfaceLost)))
            } else {
                (Scheduler { retried: true, ..s }, Action::ReconfigureAndAcquire(s.config))
            },
            _ => (s, Action::Nothing),
        }
    }
}

/// The transition of the loop. A stopped loop ignores everything. A close
/// trigger stops the loop and a tree failure ends it, wherever it stands.
/// An event that the loop's state has no use for is lost: a size change or
/// an input that arrives while the loop is resizing or rendering changes
/// nothing and is answered with `Nothing`.
pub open spec fn step_spec(s: Scheduler, e: Event) -> (Scheduler, Action) {
    if s.state == LoopState::Stopped {
        (s, Action::Nothing)
    } else {
        match e {
            Event::CloseRequested => (s.stopped(), Action::Exit),
            Event::CancelPressed => (s.stopped(), Action::Exit),
            Event::TreeFailed(error) => (s.stopped(), Action::Fail(error)),
            _ => match s.state {
                LoopState::Idle => step_idle(s, e),
                LoopState::Rendering => step_rendering(s, e),
                LoopState::Resizing => match e {
                    Event::TreeDone => (s.idle(), Action::Nothing),
                    _ => (s, Action::Nothing),
                },
                LoopState::Stopped => (s, Action::Nothing),
            },
        }
    }
}

fn stop(s: Scheduler) -> (r: Scheduler)
    ensures
        r == s.stopped(),
{
    Scheduler { state: LoopState::Stopped, ..s }
}

fn rest(s: Scheduler) -> (r: Scheduler)
    ensures
        r == s.idle(),
{
    Scheduler { state: LoopState::Idle, ..s }
}

fn on_idle(s: Scheduler, e: Event) -> (r: (Scheduler, Action))
    ensures
        r == step_idle(s, e),
{
    match e {
        Event::Settled { elapsed } => {
            let (directive, kept) = pace(s.target, elapsed);
            match directive {
                Directive::Redraw => (Scheduler { elapsed: kept, ..s }, Action::RequestRedraw),
                Directive::WaitFor { nanos } => (
                    Scheduler { elapsed: kept, ..s },
                    Action::WaitFor { nanos },
                ),
            }
        },
        Event::SizeChanged { width, height } => {
            let config = s.config.resized(width, height);
            (Scheduler { state: LoopState::Resizing, config, ..s }, Action::Resize(config))
        },
        Event::Input(input) => (s, Action::ForwardInput(input)),
        Event::RedrawDue => (
            Scheduler { state: LoopState::Rendering, retried: false, acquired: false, ..s },
            Action::AcquireFrame,
        ),
        _ => (s, Action::Nothing),
    }
}

fn on_rendering(s: Scheduler, e: Event) -> (r: (Scheduler, Action))
    ensures
        r == step_rendering(s, e),
{
    if s.acquired {
        match e {
            Event::TreeDone => (Scheduler { acquired: false, ..rest(s) }, Action::Present),
            _ => (s, Action::Nothing),
        }
    } else {
        match e {
            Event::FrameAcquired => (Scheduler { acquired: true, ..s }, Action::Render),
            Event::AcquireFailed => {
                if s.retried {
                    (stop(s), Action::Fail(CardinalError::GFX(GFXError::SurfaceLost)))
                } else {
                    (Scheduler { retried: true, ..s }, Action::ReconfigureAndAcquire(s.config))
                }
            },
            _ => (s, Action::Nothing),
        }
    }
}

/// Takes one event: returns the loop's next state and what its owner is to
/// do. The owner does that work and hands back what came of it as the next
/// event.
pub fn step(s: Scheduler, e: Event) -> (r: (Scheduler, Action))
    ensures
        r == step_spec(s, e),
        s.wf() ==> r.0.wf(),
        r.0.target == s.target,
{
    match s.state {
        LoopState::Stopped => (s, Action::Nothing),
        _ => match e {
            Event::CloseRequested => (stop(s), Action::Exit),
            Event::CancelPressed => (stop(s), Action::Exit),
            Event::TreeFailed(error) => (stop(s), Action::Fail(error)),
            _ => match s.state {
                LoopState::Idle => on_idle(s, e),
                LoopState::Rendering => on_rendering(s, e),
                LoopState::Resizing => match e {
                    Event::TreeDone => (rest(s), Action::Nothing),
                    _ => (s, Action::Nothing),
                },
                LoopState::Stopped => (s, Action::Nothing),
            },
        },
    }
}

/// At a settle point an idle loop waits for what is left of the target
/// interval and does not redraw; once the interval has passed it requests a
/// redraw and counts from zero again.
pub proof fn settle_waits_or_redraws(s: Scheduler, elapsed: u64)
    requires
        s.state == LoopState::Idle,
    ensures
        elapsed < s.target ==> step_spec(s, Event::Settled { elapsed }) == (
            Scheduler { elapsed, ..s },
            Action::WaitFor { nanos: (s.target - elapsed) as u64 },
        ),
        elapsed >= s.target ==> step_spec(s, Event::Settled { elapsed }) == (
            Scheduler { elapsed: 0, ..s },
            Action::RequestRedraw,
        ),
{
}

/// A close trigger stops a running loop at once: the answer is to exit, not
/// to redraw.
pub proof fn close_stops_the_loop(s: Scheduler, e: Event)
    requires
        s.state != LoopState::Stopped,
        e == Event::CloseRequested || e == Event::CancelPressed,
    ensures
        step_spec(s, e) == (s.stopped(), Action::Exit),
{
}

/// A stopped loop stays stopped and asks for nothing more.
pub proof fn stopped_is_final(s: Scheduler, e: Event)
    requires
        s.state == LoopState::Stopped,
    ensures
        step_spec(s, e) == (s, Action::Nothing),
{
}

/// When a frame cannot be acquired, the surface is reconfigured once; when
/// the second attempt fails too, the loop ends with an error.
pub proof fn second_acquire_failure_is_fatal(s: Scheduler)
    requires
        s.state == LoopState::Idle,
    ensures
        ({
            let (s1, a1) = step_spec(s, Event::RedrawDue);
            let (s2, a2) = step_spec(s1, Event::AcquireFailed);
            let (s3, a3) = step_spec(s2, Event::AcquireFailed);
            &&& a1 == Action::AcquireFrame
            &&& a2 == Action::ReconfigureAndAcquire(s.config)
            &&& a3 == Action::Fail(CardinalError::GFX(GFXError::SurfaceLost))
            &&& s3.state == LoopState::Stopped
        }),
{
}

/// When the attempt after the one reconfiguration succeeds, the frame is
/// rendered and presented, and the loop is idle again with its
/// configuration unchanged.
pub proof fn acquire_recovers_after_one_reconfiguration(s: Scheduler)
    requires
        s.state == LoopState::Idle,
    ensures
        ({
            let (s1, a1) = step_spec(s, Event::RedrawDue);
            let (s2, a2) = step_spec(s1, Event::AcquireFailed);
            let (s3, a3) = step_spec(s2, Event::FrameAcquired);
            let (s4, a4) = step_spec(s3, Event::TreeDone);
            &&& a1 == Action::AcquireFrame
            &&& a2 == Action::ReconfigureAndAcquire(s.config)
            &&& a3 == Action::Render
            &&& a4 == Action::Present
            &&& s4.state == LoopState::Idle
            &&& s4.config == s.config
        }),
{
}

/// A frame is rendered only when it has just been acquired, and presented
/// only when it was acquired and the tree has drawn on it.
pub proof fn frames_are_acquired_then_rendered_then_presented(s: Scheduler, e: Event)
    ensures
        step_spec(s, e).1 == Action::Render ==> s.state == LoopState::Rendering && !s.acquired && e
            == Event::FrameAcquired,
        step_spec(s, e).1 == Action::Present ==> s.state == LoopState::Rendering && s.acquired && e
            == Event::TreeDone,
{
}

/// A surface is reconfigured for a failed acquisition only when it was not
/// yet reconfigured for that frame.
pub proof fn reconfigures_at_most_once(s: Scheduler, e: Event)
    requires
        s.retried,
    ensures
        !(step_spec(s, e).1 is ReconfigureAndAcquire),
{
}

/// Two size changes to the same size ask for the same configuration as one.
pub proof fn same_size_twice_is_same_configuration(s: Scheduler, width: u32, height: u32)
    requires
        s.state == LoopState::Idle,
    ensures
        ({
            let e = Event::SizeChanged { width, height };
            let (s1, a1) = step_spec(s, e);
            let (s2, a2) = step_spec(s1, Event::TreeDone);
            let (s3, a3) = step_spec(s2, e);
            &&& a3 == a1
            &&& s3 == s1
        }),
{
}

/// No frame is rendered while the tree has not yet answered a resize.
pub proof fn resize_precedes_render(s: Scheduler, e: Event)
    requires
        s.state == LoopState::Resizing,
    ensures
        step_spec(s, e).1 != Action::Render,
        step_spec(s, e).1 != Action::AcquireFrame,
        step_spec(s, e).0.state != LoopState::Rendering,
{
}

} // verus!
