//! The unit of composition: something that is set up once and then driven
//! frame by frame.
use vstd::prelude::*;
use crate::capability::ComponentRequirements;
use crate::surface::SurfaceConfiguration;
use crate::CardinalError;

pub mod bin;
pub mod text;
pub mod two;
pub mod unit;

pub use unit::{Component, Defaulted};

verus! {

/// An input that is handed to the tree.
#[derive(Clone, Copy, Debug, PartialEq, Eq, Structural)]
pub enum InputEvent {
    Key { code: u32, pressed: bool },
    /// The pointer is at this place of the surface, in pixels.
    PointerMoved { x: i32, y: i32 },
    PointerButton { button: u32, pressed: bool },
    Scroll { dx: i32, dy: i32 },
    Focus { gained: bool },
    /// An input that the other variants do not describe.
    Other,
}

/// The lifecycle calls a component can receive, each with the plain values
/// that are handed down with it.
#[derive(Clone, Copy, Debug, PartialEq, Eq, Structural)]
pub enum CallKind {
    Init(SurfaceConfiguration),
    Resize(SurfaceConfiguration),
    Tick,
    Frame(InputEvent),
    Render,
    ShaderSetup,
}

/// One lifecycle call that a component has answered.
pub struct Call {
    pub kind: CallKind,
    /// The error that the call returned, if it returned one.
    pub failure: Option<CardinalError>,
}

/// The error in a result, if there is one.
pub open spec fn failure_of(result: Result<(), CardinalError>) -> Option<CardinalError> {
    match result {
        Ok(_) => None,
        Err(error) => Some(error),
    }
}

/// The error in a result, if there is one.
pub fn failure_in(result: &Result<(), CardinalError>) -> (failure: Option<CardinalError>)
    ensures
        failure == failure_of(*result),
{
    match result {
        Ok(_) => None,
        Err(error) => Some(*error),
    }
}

/// `after` is `before` with one more call of this kind and result.
pub open spec fn recorded(
    before: Seq<Call>,
    after: Seq<Call>,
    kind: CallKind,
    failure: Option<CardinalError>,
) -> bool {
    after == before.push(Call { kind, failure })
}

/// The call went down the list as far as child `k`, which failed with
/// `error`: every child before it answered `Ok`, and no child after it was
/// called.
pub open spec fn stopped_at(
    before: Seq<Seq<Call>>,
    after: Seq<Seq<Call>>,
    kind: CallKind,
    error: CardinalError,
    k: int,
) -> bool {
    &&& 0 <= k < before.len()
    &&& forall|j: int| 0 <= j < k ==> recorded(before[j], #[trigger] after[j], kind, None)
    &&& recorded(before[k], after[k], kind, Some(error))
    &&& forall|j: int| k < j < before.len() ==> #[trigger] after[j] == before[j]
}

/// What forwarding one call does to the histories of a list of children.
/// The children are called in list order, each once. The result is `Ok`
/// when every child answered `Ok`; else it is the error of the first child
/// that failed, and the children after that one were not called.
pub open spec fn forwarded(
    before: Seq<Seq<Call>>,
    after: Seq<Seq<Call>>,
    kind: CallKind,
    failure: Option<CardinalError>,
) -> bool {
    &&& after.len() == before.len()
    &&& match failure {
        None => forall|j: int|
            0 <= j < before.len() ==> recorded(before[j], #[trigger] after[j], kind, None),
        Some(error) => exists|k: int| stopped_at(before, after, kind, error, k),
    }
}

/// The visits that one call makes when it reaches the first `count`
/// children: child 0 first, then child 1, and so on.
pub open spec fn visits(kind: CallKind, count: int) -> Seq<(int, CallKind)> {
    Seq::new(count as nat, |j: int| (j, kind))
}

/// What forwarding one call does to a composite: to the histories of the
/// children what `forwarded` says, and to the trace of the composite the
/// visits in list order, as far as the call went. A call that succeeds visits
/// every child; one that fails ends with the child that failed.
pub open spec fn forwarded_in_order(
    before: Seq<Seq<Call>>,
    after: Seq<Seq<Call>>,
    trace_before: Seq<(int, CallKind)>,
    trace_after: Seq<(int, CallKind)>,
    kind: CallKind,
    failure: Option<CardinalError>,
) -> bool {
    &&& forwarded(before, after, kind, failure)
    &&& match failure {
        None => trace_after == trace_before + visits(kind, before.len() as int),
        Some(error) => exists|k: int|
            stopped_at(before, after, kind, error, k) && trace_after == trace_before + visits(
                kind,
                k + 1,
            ),
    }
}

/// The kinds of a list of calls, in the same order.
pub open spec fn kinds(calls: Seq<Call>) -> Seq<CallKind> {
    Seq::new(calls.len(), |i: int| calls[i].kind)
}

/// What a list of reached calls has grown by.
pub open spec fn grown(before: Seq<CallKind>, after: Seq<CallKind>) -> Seq<CallKind> {
    after.skip(before.len() as int)
}

/// What the first `count` children's lists of reached calls have grown by,
/// one child after the other in list order.
pub open spec fn joined(before: Seq<Seq<CallKind>>, after: Seq<Seq<CallKind>>, count: int) -> Seq<
    CallKind,
>
    decreases count,
{
    if count <= 0 {
        Seq::empty()
    } else {
        joined(before, after, count - 1) + grown(before[count - 1], after[count - 1])
    }
}

/// What a call that visited the first `count` children does to the calls
/// reached below a composite: they grow by what was reached below the
/// first child, then by what was reached below the second, and so on.
/// Below the children that were not visited nothing is reached.
pub open spec fn reached_in_order(
    below_before: Seq<Seq<CallKind>>,
    below_after: Seq<Seq<CallKind>>,
    reached_before: Seq<CallKind>,
    reached_after: Seq<CallKind>,
    count: int,
) -> bool {
    &&& below_after.len() == below_before.len()
    &&& 0 <= count <= below_before.len()
    &&& forall|j: int| count <= j < below_before.len() ==> #[trigger] below_after[j] == below_before[j]
    &&& reached_after == reached_before + joined(below_before, below_after, count)
}

/// Two lists of children that agree on the first `count` give the same
/// joined growth.
pub proof fn joined_agrees(
    before: Seq<Seq<CallKind>>,
    first: Seq<Seq<CallKind>>,
    second: Seq<Seq<CallKind>>,
    count: int,
)
    requires
        0 <= count <= first.len(),
        count <= second.len(),
        forall|j: int| 0 <= j < count ==> first[j] == second[j],
    ensures
        joined(before, first, count) == joined(before, second, count),
    decreases count,
{
    if count > 0 {
        joined_agrees(before, first, second, count - 1);
    }
}

/// Where each of the first `count` children was reached exactly once, the
/// call was reached `count` times below the composite.
pub proof fn joined_single_visits(
    before: Seq<Seq<CallKind>>,
    after: Seq<Seq<CallKind>>,
    kind: CallKind,
    count: int,
)
    requires
        0 <= count,
        forall|j: int| 0 <= j < count ==> #[trigger] grown(before[j], after[j]) == seq![kind],
    ensures
        joined(before, after, count) == Seq::new(count as nat, |j: int| kind),
    decreases count,
{
    if count > 0 {
        joined_single_visits(before, after, kind, count - 1);
        assert(grown(before[count - 1], after[count - 1]) == seq![kind]);
        assert(joined(before, after, count) =~= Seq::new(count as nat, |j: int| kind));
    } else {
        assert(joined(before, after, count) =~= Seq::new(count as nat, |j: int| kind));
    }
}

/// A component whose reached calls are the kinds of its own history, as a
/// leaf's are, is reached exactly once by a call that it records.
pub proof fn recorded_call_is_reached(
    before: Seq<Call>,
    after: Seq<Call>,
    kind: CallKind,
    failure: Option<CardinalError>,
)
    requires
        recorded(before, after, kind, failure),
    ensures
        grown(kinds(before), kinds(after)) == seq![kind],
        kinds(after) == kinds(before).push(kind),
{
    assert(kinds(after) =~= kinds(before).push(kind));
    assert(grown(kinds(before), kinds(after)) =~= seq![kind]);
}

/// A forwarded call reaches no child twice: each child's history is as it
/// was, or longer by exactly one call of that kind.
pub proof fn forwarded_reaches_each_child_at_most_once(
    before: Seq<Seq<Call>>,
    after: Seq<Seq<Call>>,
    kind: CallKind,
    failure: Option<CardinalError>,
    j: int,
)
    requires
        forwarded(before, after, kind, failure),
        0 <= j < before.len(),
    ensures
        after[j] == before[j] || (after[j].len() == before[j].len() + 1 && after[j].drop_last()
            == before[j] && after[j].last().kind == kind),
{
    match failure {
        None => {
            assert(recorded(before[j], after[j], kind, None));
            assert(after[j].drop_last() =~= before[j]);
        },
        Some(error) => {
            let k = choose|k: int| stopped_at(before, after, kind, error, k);
            if j < k {
                assert(recorded(before[j], after[j], kind, None));
                assert(after[j].drop_last() =~= before[j]);
            } else if j == k {
                assert(after[j].drop_last() =~= before[j]);
            } else {
                assert(after[j] == before[j]);
            }
        },
    }
}

/// A forwarded call that succeeds has reached every child, and every child
/// answered `Ok`.
pub proof fn forwarded_success_reaches_every_child(
    before: Seq<Seq<Call>>,
    after: Seq<Seq<Call>>,
    kind: CallKind,
    j: int,
)
    requires
        forwarded(before, after, kind, None),
        0 <= j < before.len(),
    ensures
        after[j] == before[j].push(Call { kind, failure: None }),
{
    assert(recorded(before[j], after[j], kind, None));
}

/// The histories tell where a forwarded call stopped and with which error:
/// there is only one child that can have been the first to fail.
pub proof fn stopping_child_is_unique(
    before: Seq<Seq<Call>>,
    after: Seq<Seq<Call>>,
    kind: CallKind,
    first_error: CardinalError,
    first: int,
    second_error: CardinalError,
    second: int,
)
    requires
        stopped_at(before, after, kind, first_error, first),
        stopped_at(before, after, kind, second_error, second),
    ensures
        first == second,
        first_error == second_error,
{
    let ok = Call { kind, failure: None };
    let first_call = Call { kind, failure: Some(first_error) };
    let second_call = Call { kind, failure: Some(second_error) };
    if first < second {
        assert(recorded(before[first], after[first], kind, None));
        assert(before[first].push(ok).last() == ok);
        assert(before[first].push(first_call).last() == first_call);
    } else if second < first {
        assert(recorded(before[second], after[second], kind, None));
        assert(before[second].push(ok).last() == ok);
        assert(before[second].push(second_call).last() == second_call);
    } else {
        assert(before[first].push(first_call).last() == first_call);
        assert(before[first].push(second_call).last() == second_call);
    }
}

/// The component that does nothing.
pub struct Empty {
    log: Ghost<Seq<Call>>,
}

impl Empty {
    pub fn new() -> (r: Empty)
        ensures
            r.history() == Seq::<Call>::empty(),
    {
        Empty { log: Ghost(Seq::empty()) }
    }

    pub closed spec fn history(&self) -> Seq<Call> {
        self.log@
    }

    /// Enters a call that was answered `Ok`.
    fn enter(&mut self, kind: CallKind)
        ensures
            final(self).history() == old(self).history().push(Call { kind, failure: None }),
    {
        self.log = Ghost(self.log@.push(Call { kind, failure: None }));
    }
}

impl<G> Component<G> for Empty {
    open spec fn calls(&self) -> Seq<Call> {
        self.history()
    }

    open spec fn reached(&self) -> Seq<CallKind> {
        kinds(self.history())
    }

    open spec fn requirements_spec(&self) -> ComponentRequirements {
        ComponentRequirements::minimal_spec()
    }

    fn init(&mut self, config: &SurfaceConfiguration, gpu: &G) -> (r: Result<(), CardinalError>)
        ensures
            r is Ok,
    {
        self.enter(CallKind::Init(*config));
        Ok(())
    }

    fn resize(&mut self, config: &SurfaceConfiguration, gpu: &G) -> (r: Result<(), CardinalError>)
        ensures
            r is Ok,
    {
        self.enter(CallKind::Resize(*config));
        Ok(())
    }

    fn tick(&mut self, gpu: &G) -> (r: Result<(), CardinalError>)
        ensures
            r is Ok,
    {
        self.enter(CallKind::Tick);
        Ok(())
    }

    fn frame(&mut self, event: &InputEvent, gpu: &G) -> (r: Result<(), CardinalError>)
        ensures
            r is Ok,
    {
        self.enter(CallKind::Frame(*event));
        Ok(())
    }

    fn render(&mut self, gpu: &G) -> (r: Result<(), CardinalError>)
        ensures
            r is Ok,
    {
        self.enter(CallKind::Render);
        Ok(())
    }

    fn shader_setup(&mut self, gpu: &G) -> (r: Result<(), CardinalError>)
        ensures
            r is Ok,
    {
        self.enter(CallKind::ShaderSetup);
        Ok(())
    }

    fn requirements(&self) -> (r: ComponentRequirements) {
        ComponentRequirements::minimal()
    }

    fn note(&mut self, kind: CallKind, seal: Defaulted) {
        self.enter(kind);
    }
}

} // verus!
