//! A composite of exactly two components.
use vstd::prelude::*;
use crate::capability::ComponentRequirements;
use crate::component::{
    failure_in, failure_of, forwarded_in_order, grown, joined, reached_in_order, recorded,
    stopped_at, visits, Call, CallKind, Component, Defaulted, InputEvent,
};
use crate::surface::SurfaceConfiguration;
use crate::CardinalError;

verus! {

/// Two components driven as one: the first, then the second.
pub struct Two<T, V>(
    pub T,
    pub V,
    Ghost<Seq<Call>>,
    Ghost<Seq<(int, CallKind)>>,
    Ghost<Seq<CallKind>>,
);

impl<T, V> Two<T, V> {
    pub fn new(first: T, second: V) -> (r: Two<T, V>)
        ensures
            r.first() == first,
            r.second() == second,
            r.history() == Seq::<Call>::empty(),
            r.trace() == Seq::<(int, CallKind)>::empty(),
            r.reached_below() == Seq::<CallKind>::empty(),
    {
        Two(first, second, Ghost(Seq::empty()), Ghost(Seq::empty()), Ghost(Seq::empty()))
    }

    /// The component that is called first.
    pub closed spec fn first(&self) -> T {
        self.0
    }

    /// The component that is called second.
    pub closed spec fn second(&self) -> V {
        self.1
    }

    /// The calls that the pair itself has answered.
    pub closed spec fn history(&self) -> Seq<Call> {
        self.2@
    }

    /// Every call that the pair has made on one of the two, oldest first:
    /// 0 for the first or 1 for the second, and the call.
    pub closed spec fn trace(&self) -> Seq<(int, CallKind)> {
        self.3@
    }

    /// What the pair's calls have reached below it, oldest first.
    pub closed spec fn reached_below(&self) -> Seq<CallKind> {
        self.4@
    }

    /// Enters a call that the pair itself has answered.
    fn enter(&mut self, kind: CallKind, failure: Option<CardinalError>)
        ensures
            final(self).history() == old(self).history().push(Call { kind, failure }),
            final(self).first() == old(self).first(),
            final(self).second() == old(self).second(),
            final(self).trace() == old(self).trace(),
            final(self).reached_below() == old(self).reached_below(),
    {
        self.2 = Ghost(self.2@.push(Call { kind, failure }));
    }
}

/// The histories of a pair, as a list of two.
pub open spec fn pair(first: Seq<Call>, second: Seq<Call>) -> Seq<Seq<Call>> {
    seq![first, second]
}

/// What has been reached below a pair, as a list of two.
pub open spec fn pair_below(first: Seq<CallKind>, second: Seq<CallKind>) -> Seq<Seq<CallKind>> {
    seq![first, second]
}

/// What a call reached below the first of two, and below the second where
/// it went there, is what it reached below the pair, in that order.
pub proof fn pair_is_reached(
    below_before: Seq<Seq<CallKind>>,
    below_after: Seq<Seq<CallKind>>,
    reached_before: Seq<CallKind>,
    reached_after: Seq<CallKind>,
    count: int,
)
    requires
        below_before.len() == 2,
        below_after.len() == 2,
        count == 1 || count == 2,
        count == 1 ==> below_after[1] == below_before[1] && reached_after == reached_before
            + grown(below_before[0], below_after[0]),
        count == 2 ==> reached_after == reached_before + grown(below_before[0], below_after[0])
            + grown(below_before[1], below_after[1]),
    ensures
        reached_in_order(below_before, below_after, reached_before, reached_after, count),
{
    let first = grown(below_before[0], below_after[0]);
    let second = grown(below_before[1], below_after[1]);
    assert(joined(below_before, below_after, 0) =~= Seq::<CallKind>::empty());
    assert(joined(below_before, below_after, 1) =~= first);
    assert(joined(below_before, below_after, 2) =~= first + second);
    assert(reached_before + first + second =~= reached_before + (first + second));
}

/// A call that went to the first of two, and to the second only when the
/// first answered `Ok`, was forwarded down the list of the two in order.
pub proof fn pair_is_forwarded(
    before: Seq<Seq<Call>>,
    after: Seq<Seq<Call>>,
    trace_before: Seq<(int, CallKind)>,
    trace_after: Seq<(int, CallKind)>,
    kind: CallKind,
    first: Option<CardinalError>,
    second: Option<CardinalError>,
)
    requires
        before.len() == 2,
        after.len() == 2,
        recorded(before[0], after[0], kind, first),
        first is None ==> recorded(before[1], after[1], kind, second),
        first is Some ==> after[1] == before[1],
        first is Some ==> trace_after == trace_before.push((0int, kind)),
        first is None ==> trace_after == trace_before.push((0int, kind)).push((1int, kind)),
    ensures
        forwarded_in_order(
            before,
            after,
            trace_before,
            trace_after,
            kind,
            if first is Some {
                first
            } else {
                second
            },
        ),
{
    assert(trace_before.push((0int, kind)) =~= trace_before + visits(kind, 1));
    assert(trace_before.push((0int, kind)).push((1int, kind)) =~= trace_before + visits(kind, 2));
    if first is Some {
        assert(stopped_at(before, after, kind, first->Some_0, 0));
    } else if second is Some {
        assert(stopped_at(before, after, kind, second->Some_0, 1));
    }
}

impl<G, T: Component<G>, V: Component<G>> Component<G> for Two<T, V> {
    open spec fn calls(&self) -> Seq<Call> {
        self.history()
    }

    open spec fn reached(&self) -> Seq<CallKind> {
        self.reached_below()
    }

    open spec fn requirements_spec(&self) -> ComponentRequirements {
        self.first().requirements_spec().merge_spec(self.second().requirements_spec())
    }

    fn init(&mut self, config: &SurfaceConfiguration, gpu: &G) -> (r: Result<(), CardinalError>)
        ensures
            forwarded_in_order(
                pair(old(self).first().calls(), old(self).second().calls()),
                pair(final(self).first().calls(), final(self).second().calls()),
                old(self).trace(),
                final(self).trace(),
                CallKind::Init(*config),
                failure_of(r),
            ),
            reached_in_order(
                pair_below(old(self).first().reached(), old(self).second().reached()),
                pair_below(final(self).first().reached(), final(self).second().reached()),
                old(self).reached_below(),
                final(self).reached_below(),
                final(self).trace().len() - old(self).trace().len(),
            ),
    {
        let first = self.0.init(config, gpu);
        proof {
            self.3@ = self.3@.push((0int, CallKind::Init(*config)));
            self.4@ = self.4@ + grown(old(self).first().reached(), self.first().reached());
        }
        let r = match first {
            Ok(_) => {
                let second = self.1.init(config, gpu);
                proof {
                    self.3@ = self.3@.push((1int, CallKind::Init(*config)));
                    self.4@ = self.4@ + grown(old(self).second().reached(), self.second().reached());
                }
                second
            },
            Err(error) => Err(error),
        };
        proof {
            pair_is_forwarded(
                pair(old(self).first().calls(), old(self).second().calls()),
                pair(self.first().calls(), self.second().calls()),
                old(self).trace(),
                self.trace(),
                CallKind::Init(*config),
                failure_of(first),
                failure_of(r),
            );
            pair_is_reached(
                pair_below(old(self).first().reached(), old(self).second().reached()),
                pair_below(self.first().reached(), self.second().reached()),
                old(self).reached_below(),
                self.reached_below(),
                self.trace().len() - old(self).trace().len(),
            );
        }
        self.enter(CallKind::Init(*config), failure_in(&r));
        r
    }

    fn resize(&mut self, config: &SurfaceConfiguration, gpu: &G) -> (r: Result<(), CardinalError>)
        ensures
            forwarded_in_order(
                pair(old(self).first().calls(), old(self).second().calls()),
                pair(final(self).first().calls(), final(self).second().calls()),
                old(self).trace(),
                final(self).trace(),
                CallKind::Resize(*config),
                failure_of(r),
            ),
            reached_in_order(
                pair_below(old(self).first().reached(), old(self).second().reached()),
                pair_below(final(self).first().reached(), final(self).second().reached()),
                old(self).reached_below(),
                final(self).reached_below(),
                final(self).trace().len() - old(self).trace().len(),
            ),
    {
        let first = self.0.resize(config, gpu);
        proof {
            self.3@ = self.3@.push((0int, CallKind::Resize(*config)));
            self.4@ = self.4@ + grown(old(self).first().reached(), self.first().reached());
        }
        let r = match first {
            Ok(_) => {
                let second = self.1.resize(config, gpu);
                proof {
                    self.3@ = self.3@.push((1int, CallKind::Resize(*config)));
                    self.4@ = self.4@ + grown(old(self).second().reached(), self.second().reached());
                }
                second
            },
            Err(error) => Err(error),
        };
        proof {
            pair_is_forwarded(
                pair(old(self).first().calls(), old(self).second().calls()),
                pair(self.first().calls(), self.second().calls()),
                old(self).trace(),
                self.trace(),
                CallKind::Resize(*config),
                failure_of(first),
                failure_of(r),
            );
            pair_is_reached(
                pair_below(old(self).first().reached(), old(self).second().reached()),
                pair_below(self.first().reached(), self.second().reached()),
                old(self).reached_below(),
                self.reached_below(),
                self.trace().len() - old(self).trace().len(),
            );
        }
        self.enter(CallKind::Resize(*config), failure_in(&r));
        r
    }

    fn tick(&mut self, gpu: &G) -> (r: Result<(), CardinalError>)
        ensures
            forwarded_in_order(
                pair(old(self).first().calls(), old(self).second().calls()),
                pair(final(self).first().calls(), final(self).second().calls()),
                old(self).trace(),
                final(self).trace(),
                CallKind::Tick,
                failure_of(r),
            ),
            reached_in_order(
                pair_below(old(self).first().reached(), old(self).second().reached()),
                pair_below(final(self).first().reached(), final(self).second().reached()),
                old(self).reached_below(),
                final(self).reached_below(),
                final(self).trace().len() - old(self).trace().len(),
            ),
    {
        let first = self.0.tick(gpu);
        proof {
            self.3@ = self.3@.push((0int, CallKind::Tick));
            self.4@ = self.4@ + grown(old(self).first().reached(), self.first().reached());
        }
        let r = match first {
            Ok(_) => {
                let second = self.1.tick(gpu);
                proof {
                    self.3@ = self.3@.push((1int, CallKind::Tick));
                    self.4@ = self.4@ + grown(old(self).second().reached(), self.second().reached());
                }
                second
            },
            Err(error) => Err(error),
        };
        proof {
            pair_is_forwarded(
                pair(old(self).first().calls(), old(self).second().calls()),
                pair(self.first().calls(), self.second().calls()),
                old(self).trace(),
                self.trace(),
                CallKind::Tick,
                failure_of(first),
                failure_of(r),
            );
            pair_is_reached(
                pair_below(old(self).first().reached(), old(self).second().reached()),
                pair_below(self.first().reached(), self.second().reached()),
                old(self).reached_below(),
                self.reached_below(),
                self.trace().len() - old(self).trace().len(),
            );
        }
        self.enter(CallKind::Tick, failure_in(&r));
        r
    }

    fn frame(&mut self, event: &InputEvent, gpu: &G) -> (r: Result<(), CardinalError>)
        ensures
            forwarded_in_order(
                pair(old(self).first().calls(), old(self).second().calls()),
                pair(final(self).first().calls(), final(self).second().calls()),
                old(self).trace(),
                final(self).trace(),
                CallKind::Frame(*event),
                failure_of(r),
            ),
            reached_in_order(
                pair_below(old(self).first().reached(), old(self).second().reached()),
                pair_below(final(self).first().reached(), final(self).second().reached()),
                old(self).reached_below(),
                final(self).reached_below(),
                final(self).trace().len() - old(self).trace().len(),
            ),
    {
        let first = self.0.frame(event, gpu);
        proof {
            self.3@ = self.3@.push((0int, CallKind::Frame(*event)));
            self.4@ = self.4@ + grown(old(self).first().reached(), self.first().reached());
        }
        let r = match first {
            Ok(_) => {
                let second = self.1.frame(event, gpu);
                proof {
                    self.3@ = self.3@.push((1int, CallKind::Frame(*event)));
                    self.4@ = self.4@ + grown(old(self).second().reached(), self.second().reached());
                }
                second
            },
            Err(error) => Err(error),
        };
        proof {
            pair_is_forwarded(
                pair(old(self).first().calls(), old(self).second().calls()),
                pair(self.first().calls(), self.second().calls()),
                old(self).trace(),
                self.trace(),
                CallKind::Frame(*event),
                failure_of(first),
                failure_of(r),
            );
            pair_is_reached(
                pair_below(old(self).first().reached(), old(self).second().reached()),
                pair_below(self.first().reached(), self.second().reached()),
                old(self).reached_below(),
                self.reached_below(),
                self.trace().len() - old(self).trace().len(),
            );
        }
        self.enter(CallKind::Frame(*event), failure_in(&r));
        r
    }

    fn render(&mut self, gpu: &G) -> (r: Result<(), CardinalError>)
        ensures
            forwarded_in_order(
                pair(old(self).first().calls(), old(self).second().calls()),
                pair(final(self).first().calls(), final(self).second().calls()),
                old(self).trace(),
                final(self).trace(),
                CallKind::Render,
                failure_of(r),
            ),
            reached_in_order(
                pair_below(old(self).first().reached(), old(self).second().reached()),
                pair_below(final(self).first().reached(), final(self).second().reached()),
                old(self).reached_below(),
                final(self).reached_below(),
                final(self).trace().len() - old(self).trace().len(),
            ),
    {
        let first = self.0.render(gpu);
        proof {
            self.3@ = self.3@.push((0int, CallKind::Render));
            self.4@ = self.4@ + grown(old(self).first().reached(), self.first().reached());
        }
        let r = match first {
            Ok(_) => {
                let second = self.1.render(gpu);
                proof {
                    self.3@ = self.3@.push((1int, CallKind::Render));
                    self.4@ = self.4@ + grown(old(self).second().reached(), self.second().reached());
                }
                second
            },
            Err(error) => Err(error),
        };
        proof {
            pair_is_forwarded(
                pair(old(self).first().calls(), old(self).second().calls()),
                pair(self.first().calls(), self.second().calls()),
                old(self).trace(),
                self.trace(),
                CallKind::Render,
                failure_of(first),
                failure_of(r),
            );
            pair_is_reached(
                pair_below(old(self).first().reached(), old(self).second().reached()),
                pair_below(self.first().reached(), self.second().reached()),
                old(self).reached_below(),
                self.reached_below(),
                self.trace().len() - old(self).trace().len(),
            );
        }
        self.enter(CallKind::Render, failure_in(&r));
        r
    }

    fn shader_setup(&mut self, gpu: &G) -> (r: Result<(), CardinalError>)
        ensures
            forwarded_in_order(
                pair(old(self).first().calls(), old(self).second().calls()),
                pair(final(self).first().calls(), final(self).second().calls()),
                old(self).trace(),
                final(self).trace(),
                CallKind::ShaderSetup,
                failure_of(r),
            ),
            reached_in_order(
                pair_below(old(self).first().reached(), old(self).second().reached()),
                pair_below(final(self).first().reached(), final(self).second().reached()),
                old(self).reached_below(),
                final(self).reached_below(),
                final(self).trace().len() - old(self).trace().len(),
            ),
    {
        let first = self.0.shader_setup(gpu);
        proof {
            self.3@ = self.3@.push((0int, CallKind::ShaderSetup));
            self.4@ = self.4@ + grown(old(self).first().reached(), self.first().reached());
        }
        let r = match first {
            Ok(_) => {
                let second = self.1.shader_setup(gpu);
                proof {
                    self.3@ = self.3@.push((1int, CallKind::ShaderSetup));
                    self.4@ = self.4@ + grown(old(self).second().reached(), self.second().reached());
                }
                second
            },
            Err(error) => Err(error),
        };
        proof {
            pair_is_forwarded(
                pair(old(self).first().calls(), old(self).second().calls()),
                pair(self.first().calls(), self.second().calls()),
                old(self).trace(),
                self.trace(),
                CallKind::ShaderSetup,
                failure_of(first),
                failure_of(r),
            );
            pair_is_reached(
                pair_below(old(self).first().reached(), old(self).second().reached()),
                pair_below(self.first().reached(), self.second().reached()),
                old(self).reached_below(),
                self.reached_below(),
                self.trace().len() - old(self).trace().len(),
            );
        }
        self.enter(CallKind::ShaderSetup, failure_in(&r));
        r
    }

    fn requirements(&self) -> (r: ComponentRequirements) {
        self.0.requirements().merge(self.1.requirements())
    }

    fn note(&mut self, kind: CallKind, seal: Defaulted)
        ensures
            final(self).first() == old(self).first(),
            final(self).second() == old(self).second(),
            final(self).trace() == old(self).trace(),
            final(self).reached_below() == old(self).reached_below(),
    {
        self.enter(kind, None)
    }
}

} // verus!
