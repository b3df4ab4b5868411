//! The composite: an ordered list of components driven as one.
use vstd::prelude::*;
use crate::capability::{aggregate, aggregate_spec, ComponentRequirements};
use crate::component::{
    failure_in, failure_of, forwarded, forwarded_in_order, grown, joined, joined_agrees,
    reached_in_order, recorded, stopped_at, visits, Call, CallKind, Component, Defaulted,
    InputEvent,
};
use crate::surface::SurfaceConfiguration;
use crate::CardinalError;

verus! {

/// An ordered list of components. The order of the list is the order in
/// which the children receive every call.
#[verifier::reject_recursive_types(G)]
pub struct Scene<G> {
    children: Vec<Box<dyn Component<G>>>,
    log: Ghost<Seq<Call>>,
    trace: Ghost<Seq<(int, CallKind)>>,
    reached: Ghost<Seq<CallKind>>,
}

/// One lifecycle call, with what is handed down with it.
enum Request<'a, G> {
    Init(&'a SurfaceConfiguration, &'a G),
    Resize(&'a SurfaceConfiguration, &'a G),
    Tick(&'a G),
    Frame(&'a InputEvent, &'a G),
    Render(&'a G),
    ShaderSetup(&'a G),
}

impl<'a, G> Request<'a, G> {
    spec fn kind(&self) -> CallKind {
        match self {
            Request::Init(config, _) => CallKind::Init(**config),
            Request::Resize(config, _) => CallKind::Resize(**config),
            Request::Tick(_) => CallKind::Tick,
            Request::Frame(event, _) => CallKind::Frame(**event),
            Request::Render(_) => CallKind::Render,
            Request::ShaderSetup(_) => CallKind::ShaderSetup,
        }
    }
}

/// Makes a scene of the given children, in the given order.
pub fn scene<G>(children: Vec<Box<dyn Component<G>>>) -> (r: Scene<G>)
    ensures
        r.len() == children@.len(),
        r.histories() == Seq::new(children@.len(), |i: int| children@[i].calls()),
        r.declared() == Seq::new(children@.len(), |i: int| children@[i].requirements_spec()),
        r.history() == Seq::<Call>::empty(),
        r.trace() == Seq::<(int, CallKind)>::empty(),
        r.below() == Seq::new(children@.len(), |i: int| children@[i].reached()),
        r.reached_below() == Seq::<CallKind>::empty(),
{
    Scene {
        children,
        log: Ghost(Seq::empty()),
        trace: Ghost(Seq::empty()),
        reached: Ghost(Seq::empty()),
    }
}

impl<G> Scene<G> {
    /// The number of children.
    pub closed spec fn len(&self) -> nat {
        self.children@.len()
    }

    /// The history of each child, in list order.
    pub closed spec fn histories(&self) -> Seq<Seq<Call>> {
        Seq::new(self.children@.len(), |i: int| self.children@[i].calls())
    }

    /// What each child asks of the GPU, in list order.
    pub closed spec fn declared(&self) -> Seq<ComponentRequirements> {
        Seq::new(self.children@.len(), |i: int| self.children@[i].requirements_spec())
    }

    /// The calls that the scene itself has answered.
    pub closed spec fn history(&self) -> Seq<Call> {
        self.log@
    }

    /// Every call that the scene has made on a child, oldest first: the
    /// child's place in the list, and the call.
    pub closed spec fn trace(&self) -> Seq<(int, CallKind)> {
        self.trace@
    }

    /// What has been reached below each child, in list order.
    pub closed spec fn below(&self) -> Seq<Seq<CallKind>> {
        Seq::new(self.children@.len(), |i: int| self.children@[i].reached())
    }

    /// What the scene's calls have reached below it, oldest first.
    pub closed spec fn reached_below(&self) -> Seq<CallKind> {
        self.reached@
    }

    /// What a lifecycle call does to a scene: it is forwarded to the
    /// children in list order, what it reached below them is joined in
    /// that order, and the list keeps its length.
    pub open spec fn driven(
        self,
        after: Scene<G>,
        kind: CallKind,
        failure: Option<CardinalError>,
    ) -> bool {
        &&& after.len() == self.len()
        &&& forwarded_in_order(
            self.histories(),
            after.histories(),
            self.trace(),
            after.trace(),
            kind,
            failure,
        )
        &&& reached_in_order(
            self.below(),
            after.below(),
            self.reached_below(),
            after.reached_below(),
            after.trace().len() - self.trace().len(),
        )
    }

    /// Enters a call that the scene itself has answered.
    fn enter(&mut self, kind: CallKind, failure: Option<CardinalError>)
        ensures
            final(self).history() == old(self).history().push(Call { kind, failure }),
            final(self).histories() == old(self).histories(),
            final(self).declared() == old(self).declared(),
            final(self).trace() == old(self).trace(),
            final(self).below() == old(self).below(),
            final(self).reached_below() == old(self).reached_below(),
            final(self).len() == old(self).len(),
    {
        self.log = Ghost(self.log@.push(Call { kind, failure }));
    }

    /// Hands one call to the children in list order and stops at the first
    /// that fails.
    fn forward(&mut self, request: &Request<'_, G>) -> (r: Result<(), CardinalError>)
        ensures
            forwarded_in_order(
                old(self).histories(),
                final(self).histories(),
                old(self).trace(),
                final(self).trace(),
                request.kind(),
                failure_of(r),
            ),
            reached_in_order(
                old(self).below(),
                final(self).below(),
                old(self).reached_below(),
                final(self).reached_below(),
                final(self).trace().len() - old(self).trace().len(),
            ),
            final(self).history() == old(self).history(),
            final(self).len() == old(self).len(),
    {
        let ghost before = self.histories();
        let ghost below = self.below();
        let ghost kind = request.kind();
        let n = self.children.len();
        let mut i: usize = 0;
        while i < n
            invariant
                i <= n,
                n == self.children@.len(),
                before == old(self).histories(),
                before.len() == n,
                kind == request.kind(),
                self.log == old(self).log,
                self.trace@ == old(self).trace@ + visits(kind, i as int),
                below == old(self).below(),
                below.len() == n,
                self.reached@ == old(self).reached@ + joined(below, self.below(), i as int),
                forall|j: int| i <= j < n ==> #[trigger] self.children@[j].reached() == below[j],
                forall|j: int|
                    0 <= j < i ==> recorded(
                        before[j],
                        #[trigger] self.children@[j].calls(),
                        kind,
                        None,
                    ),
                forall|j: int| i <= j < n ==> #[trigger] self.children@[j].calls() == before[j],
            decreases n - i,
        {
            let ghost children_before = self.children@;
            let ghost below_then = self.below();
            let r = match request {
                Request::Init(config, gpu) => self.children[i].init(config, gpu),
                Request::Resize(config, gpu) => self.children[i].resize(config, gpu),
                Request::Tick(gpu) => self.children[i].tick(gpu),
                Request::Frame(event, gpu) => self.children[i].frame(event, gpu),
                Request::Render(gpu) => self.children[i].render(gpu),
                Request::ShaderSetup(gpu) => self.children[i].shader_setup(gpu),
            };
            proof {
                self.trace@ = self.trace@.push((i as int, kind));
                assert(self.trace@ =~= old(self).trace@ + visits(kind, i + 1));
                assert(forall|j: int|
                    0 <= j < n && j != i ==> self.children@[j] == children_before[j]);
                self.reached@ = self.reached@ + grown(
                    below[i as int],
                    self.children@[i as int].reached(),
                );
                joined_agrees(below, below_then, self.below(), i as int);
                assert(self.reached@ =~= old(self).reached@ + joined(below, self.below(), i + 1));
                assert(recorded(
                    before[i as int],
                    self.children@[i as int].calls(),
                    kind,
                    failure_of(r),
                ));
            }
            match r {
                Ok(_) => {
                    proof {
                        assert forall|j: int| 0 <= j < i + 1 implies recorded(
                            before[j],
                            #[trigger] self.children@[j].calls(),
                            kind,
                            None,
                        ) by {
                            if j < i {
                                assert(self.children@[j] == children_before[j]);
                            }
                        }
                    }
                },
                Err(error) => {
                    proof {
                        let after = self.histories();
                        assert(stopped_at(before, after, kind, error, i as int));
                    }
                    return Err(error);
                },
            }
            i = i + 1;
        }
        proof {
            assert(forwarded(before, self.histories(), kind, None));
        }
        Ok(())
    }
}

impl<G> Component<G> for Scene<G> {
    open spec fn calls(&self) -> Seq<Call> {
        self.history()
    }

    open spec fn reached(&self) -> Seq<CallKind> {
        self.reached_below()
    }

    open spec fn requirements_spec(&self) -> ComponentRequirements {
        aggregate_spec(self.declared())
    }

    /// Sets up the children in list order. The first error ends the call
    /// and is returned; the children after the one that failed are not set
    /// up.
    fn init(&mut self, config: &SurfaceConfiguration, gpu: &G) -> (r: Result<(), CardinalError>)
        ensures
            old(self).driven(*final(self), CallKind::Init(*config), failure_of(r)),
    {
        let r = self.forward(&Request::Init(config, gpu));
        self.enter(CallKind::Init(*config), failure_in(&r));
        r
    }

    fn resize(&mut self, config: &SurfaceConfiguration, gpu: &G) -> (r: Result<(), CardinalError>)
        ensures
            old(self).driven(*final(self), CallKind::Resize(*config), failure_of(r)),
    {
        let r = self.forward(&Request::Resize(config, gpu));
        self.enter(CallKind::Resize(*config), failure_in(&r));
        r
    }

    fn tick(&mut self, gpu: &G) -> (r: Result<(), CardinalError>)
        ensures
            old(self).driven(*final(self), CallKind::Tick, failure_of(r)),
    {
        let r = self.forward(&Request::Tick(gpu));
        self.enter(CallKind::Tick, failure_in(&r));
        r
    }

    fn frame(&mut self, event: &InputEvent, gpu: &G) -> (r: Result<(), CardinalError>)
        ensures
            old(self).driven(*final(self), CallKind::Frame(*event), failure_of(r)),
    {
        let r = self.forward(&Request::Frame(event, gpu));
        self.enter(CallKind::Frame(*event), failure_in(&r));
        r
    }

    fn render(&mut self, gpu: &G) -> (r: Result<(), CardinalError>)
        ensures
            old(self).driven(*final(self), CallKind::Render, failure_of(r)),
    {
        let r = self.forward(&Request::Render(gpu));
        self.enter(CallKind::Render, failure_in(&r));
        r
    }

    fn shader_setup(&mut self, gpu: &G) -> (r: Result<(), CardinalError>)
        ensures
            old(self).driven(*final(self), CallKind::ShaderSetup, failure_of(r)),
    {
        let r = self.forward(&Request::ShaderSetup(gpu));
        self.enter(CallKind::ShaderSetup, failure_in(&r));
        r
    }

    /// The requirements of all children taken together.
    fn requirements(&self) -> (r: ComponentRequirements) {
        let mut parts: Vec<ComponentRequirements> = Vec::new();
        let mut i: usize = 0;
        while i < self.children.len()
            invariant
                i <= self.children@.len(),
                parts@ == self.declared().take(i as int),
            decreases self.children@.len() - i,
        {
            let part = self.children[i].requirements();
            parts.push(part);
            proof {
                assert(parts@ =~= self.declared().take(i + 1));
            }
            i = i + 1;
        }
        proof {
            assert(self.declared().take(self.children@.len() as int) =~= self.declared());
        }
        aggregate(&parts)
    }

    fn note(&mut self, kind: CallKind, seal: Defaulted)
        ensures
            final(self).histories() == old(self).histories(),
            final(self).declared() == old(self).declared(),
            final(self).trace() == old(self).trace(),
            final(self).below() == old(self).below(),
            final(self).reached_below() == old(self).reached_below(),
            final(self).len() == old(self).len(),
    {
        self.enter(kind, None);
    }
}

} // verus!
