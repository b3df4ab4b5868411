//! The interface of a renderable unit.
use vstd::prelude::*;
use crate::capability::ComponentRequirements;
use crate::component::{failure_of, recorded, Call, CallKind, InputEvent};
use crate::surface::SurfaceConfiguration;
use crate::CardinalError;

verus! {

/// Proof that a call was answered by a body that the trait gives. A value
/// can be made in this file only, so nothing but those bodies can hand one
/// to `note`: no caller can enter a call into a component's history other
/// than by making the call.
pub struct Defaulted {
    seal: (),
}

/// A renderable unit. `G` is whatever the owner of the loop hands down for
/// the length of a call: the device, the queue, the frame to draw on.
pub trait Component<G> {
    /// The lifecycle calls that this component has answered, oldest first.
    /// Every verified component defines this anew: with the body given
    /// here no call can be proved. The body spares components that are
    /// written without proofs the need to name a ghost type.
    open spec fn calls(&self) -> Seq<Call> {
        Seq::empty()
    }

    /// The calls that have reached the leaves at or below this component,
    /// in the order in which they were made. For a leaf these are the kinds
    /// of its own calls; a composite joins what was reached below its
    /// children while it forwarded.
    open spec fn reached(&self) -> Seq<CallKind> {
        Seq::empty()
    }

    /// What this component asks of the GPU. Nothing, unless it says
    /// otherwise.
    open spec fn requirements_spec(&self) -> ComponentRequirements {
        ComponentRequirements::minimal_spec()
    }

    /// Called once, before the first frame.
    fn init(&mut self, config: &SurfaceConfiguration, gpu: &G) -> (r: Result<(), CardinalError>)
        ensures
            recorded(old(self).calls(), final(self).calls(), CallKind::Init(*config), failure_of(r)),
    ;

    /// Called after the surface has taken a new size.
    fn resize(&mut self, config: &SurfaceConfiguration, gpu: &G) -> (r: Result<(), CardinalError>)
        ensures
            recorded(old(self).calls(), final(self).calls(), CallKind::Resize(*config), failure_of(r)),
    {
        self.note(CallKind::Resize(*config), Defaulted { seal: () });
        Ok(())
    }

    /// Called at an interval, apart from the frames.
    fn tick(&mut self, gpu: &G) -> (r: Result<(), CardinalError>)
        ensures
            recorded(old(self).calls(), final(self).calls(), CallKind::Tick, failure_of(r)),
    {
        self.note(CallKind::Tick, Defaulted { seal: () });
        Ok(())
    }

    /// Called for each input that is not the loop's own.
    fn frame(&mut self, event: &InputEvent, gpu: &G) -> (r: Result<(), CardinalError>)
        ensures
            recorded(old(self).calls(), final(self).calls(), CallKind::Frame(*event), failure_of(r)),
    {
        self.note(CallKind::Frame(*event), Defaulted { seal: () });
        Ok(())
    }

    /// Called once for each frame, with the frame to draw on in `gpu`.
    fn render(&mut self, gpu: &G) -> (r: Result<(), CardinalError>)
        ensures
            recorded(old(self).calls(), final(self).calls(), CallKind::Render, failure_of(r)),
    {
        self.note(CallKind::Render, Defaulted { seal: () });
        Ok(())
    }

    /// Called when the component is to build its shaders.
    fn shader_setup(&mut self, gpu: &G) -> (r: Result<(), CardinalError>)
        ensures
            recorded(old(self).calls(), final(self).calls(), CallKind::ShaderSetup, failure_of(r)),
    {
        self.note(CallKind::ShaderSetup, Defaulted { seal: () });
        Ok(())
    }

    /// What this component asks of the GPU.
    fn requirements(&self) -> (r: ComponentRequirements)
        ensures
            r == self.requirements_spec(),
    ;

    /// Enters a call that was answered `Ok` into the history. The calls
    /// that a component leaves as they are given here enter themselves
    /// with this, and nothing else can: it takes a seal. Where the history
    /// is ghost state this does nothing at run time.
    fn note(&mut self, kind: CallKind, seal: Defaulted)
        ensures
            recorded(old(self).calls(), final(self).calls(), kind, None),
    ;
}

} // verus!
