//! The loop and the tree it drives, held together: the tree is set up
//! before the loop starts, and later receives exactly the calls that the
//! loop's state asks for.
use vstd::prelude::*;
use crate::component::{failure_of, CallKind, Component};
use crate::scene::Scene;
use crate::scheduler::{completion, step, step_spec, Action, Event, LoopState, Scheduler};
use crate::surface::SurfaceConfiguration;
use crate::CardinalError;

verus! {

/// A scene together with the state of the loop that drives it.
#[verifier::reject_recursive_types(G)]
pub struct Driver<G> {
    tree: Scene<G>,
    scheduler: Scheduler,
}

/// What follows when the tree has taken an input: nothing when it
/// succeeded, the end of the loop when it failed.
pub open spec fn after_input(s: Scheduler, failure: Option<CardinalError>) -> (Scheduler, Action) {
    match failure {
        None => (s, Action::Nothing),
        Some(error) => step_spec(s, Event::TreeFailed(error)),
    }
}

/// The tree took a call of this kind with this outcome, and the loop took
/// the outcome as its next event.
pub open spec fn tree_called<G>(
    before: Scene<G>,
    after: Scene<G>,
    kind: CallKind,
    failure: Option<CardinalError>,
    s: Scheduler,
    next: (Scheduler, Action),
) -> bool {
    &&& before.driven(after, kind, failure)
    &&& next == step_spec(s, completion(failure))
}

fn completed(result: &Result<(), CardinalError>) -> (e: Event)
    ensures
        e == completion(failure_of(*result)),
{
    match result {
        Ok(_) => Event::TreeDone,
        Err(error) => Event::TreeFailed(*error),
    }
}

impl<G> Driver<G> {
    /// The tree that the loop drives.
    pub closed spec fn tree(&self) -> Scene<G> {
        self.tree
    }

    /// The state of the loop.
    pub closed spec fn loop_state(&self) -> Scheduler {
        self.scheduler
    }

    /// Sets up the tree and starts an idle loop when that succeeded. When a
    /// child fails there is no loop: the error of that child comes back
    /// together with the tree as the failed call left it.
    pub fn start(tree: Scene<G>, config: SurfaceConfiguration, target: u64, gpu: &G) -> (r: Result<
        Driver<G>,
        (CardinalError, Scene<G>),
    >)
        ensures
            match r {
                Ok(driver) => {
                    &&& driver.loop_state() == Scheduler::initial(config, target)
                    &&& tree.driven(
                        driver.tree(),
                        CallKind::Init(Scheduler::initial(config, target).config),
                        None,
                    )
                },
                Err((error, left)) => tree.driven(
                    left,
                    CallKind::Init(Scheduler::initial(config, target).config),
                    Some(error),
                ),
            },
    {
        let scheduler = Scheduler::new(config, target);
        let mut owned = tree;
        match owned.init(&scheduler.config, gpu) {
            Ok(_) => Ok(Driver { tree: owned, scheduler }),
            Err(error) => Err((error, owned)),
        }
    }

    /// The state of the loop.
    pub fn scheduler(&self) -> (s: Scheduler)
        ensures
            s == self.loop_state(),
    {
        self.scheduler
    }

    /// Takes one event. Input that is meant for the tree is handed to it at
    /// once; every other action is returned for the owner to perform.
    pub fn handle(&mut self, event: Event, gpu: &G) -> (action: Action)
        ensures
            match step_spec(old(self).loop_state(), event).1 {
                Action::ForwardInput(input) => exists|failure: Option<CardinalError>|
                    {
                        &&& old(self).tree().driven(
                            final(self).tree(),
                            CallKind::Frame(input),
                            failure,
                        )
                        &&& (final(self).loop_state(), action) == after_input(
                            step_spec(old(self).loop_state(), event).0,
                            failure,
                        )
                    },
                _ => {
                    &&& final(self).tree() == old(self).tree()
                    &&& (final(self).loop_state(), action) == step_spec(
                        old(self).loop_state(),
                        event,
                    )
                },
            },
    {
        let (next, action) = step(self.scheduler, event);
        self.scheduler = next;
        match action {
            Action::ForwardInput(input) => {
                let r = self.tree.frame(&input, gpu);
                let ghost failure = failure_of(r);
                match r {
                    Ok(_) => {
                        proof {
                            assert((self.scheduler, Action::Nothing) == after_input(next, failure));
                        }
                        Action::Nothing
                    },
                    Err(error) => {
                        let (stopped, fail) = step(self.scheduler, Event::TreeFailed(error));
                        self.scheduler = stopped;
                        proof {
                            assert((self.scheduler, fail) == after_input(next, failure));
                        }
                        fail
                    },
                }
            },
            _ => action,
        }
    }

    /// To be called when the surface has been configured for a new size:
    /// tells the tree of the new configuration and the loop of the outcome.
    /// Does nothing unless the loop is resizing.
    pub fn resized(&mut self, gpu: &G) -> (action: Action)
        ensures
            old(self).loop_state().state != LoopState::Resizing ==> {
                &&& final(self).tree() == old(self).tree()
                &&& final(self).loop_state() == old(self).loop_state()
                &&& action == Action::Nothing
            },
            old(self).loop_state().state == LoopState::Resizing ==> exists|
                failure: Option<CardinalError>,
            |
                tree_called(
                    old(self).tree(),
                    final(self).tree(),
                    CallKind::Resize(old(self).loop_state().config),
                    failure,
                    old(self).loop_state(),
                    (final(self).loop_state(), action),
                ),
    {
        match self.scheduler.state {
            LoopState::Resizing => {
                let config = self.scheduler.config;
                let r = self.tree.resize(&config, gpu);
                let ghost failure = failure_of(r);
                let (next, action) = step(self.scheduler, completed(&r));
                self.scheduler = next;
                proof {
                    assert(tree_called(
                        old(self).tree(),
                        self.tree(),
                        CallKind::Resize(config),
                        failure,
                        old(self).loop_state(),
                        (self.scheduler, action),
                    ));
                }
                action
            },
            _ => Action::Nothing,
        }
    }

    /// To be called when a frame has been acquired: lets the tree draw and
    /// tells the loop of the outcome. Does nothing unless the loop holds an
    /// acquired frame.
    pub fn render(&mut self, gpu: &G) -> (action: Action)
        ensures
            !old(self).loop_state().holds_frame() ==> {
                &&& final(self).tree() == old(self).tree()
                &&& final(self).loop_state() == old(self).loop_state()
                &&& action == Action::Nothing
            },
            old(self).loop_state().holds_frame() ==> exists|
                failure: Option<CardinalError>,
            |
                tree_called(
                    old(self).tree(),
                    final(self).tree(),
                    CallKind::Render,
                    failure,
                    old(self).loop_state(),
                    (final(self).loop_state(), action),
                ),
    {
        match (self.scheduler.state, self.scheduler.acquired) {
            (LoopState::Rendering, true) => {
                let r = self.tree.render(gpu);
                let ghost failure = failure_of(r);
                let (next, action) = step(self.scheduler, completed(&r));
                self.scheduler = next;
                proof {
                    assert(tree_called(
                        old(self).tree(),
                        self.tree(),
                        CallKind::Render,
                        failure,
                        old(self).loop_state(),
                        (self.scheduler, action),
                    ));
                }
                action
            },
            _ => Action::Nothing,
        }
    }
}

} // verus!
