//! A wrapper around one component.
use vstd::prelude::*;
use crate::capability::ComponentRequirements;
use crate::component::{Call, CallKind, Component, Defaulted, InputEvent};
use crate::surface::SurfaceConfiguration;
use crate::CardinalError;

verus! {

/// A component that wraps one other and hands every call on to it.
pub struct Bin<T>(pub T);

impl<G, T: Component<G>> Component<G> for Bin<T> {
    open spec fn calls(&self) -> Seq<Call> {
        self.0.calls()
    }

    open spec fn reached(&self) -> Seq<CallKind> {
        self.0.reached()
    }

    open spec fn requirements_spec(&self) -> ComponentRequirements {
        self.0.requirements_spec()
    }

    fn init(&mut self, config: &SurfaceConfiguration, gpu: &G) -> (r: Result<(), CardinalError>) {
        self.0.init(config, gpu)
    }

    fn resize(&mut self, config: &SurfaceConfiguration, gpu: &G) -> (r: Result<(), CardinalError>) {
        self.0.resize(config, gpu)
    }

    fn tick(&mut self, gpu: &G) -> (r: Result<(), CardinalError>) {
        self.0.tick(gpu)
    }

    fn frame(&mut self, event: &InputEvent, gpu: &G) -> (r: Result<(), CardinalError>) {
        self.0.frame(event, gpu)
    }

    fn render(&mut self, gpu: &G) -> (r: Result<(), CardinalError>) {
        self.0.render(gpu)
    }

    fn shader_setup(&mut self, gpu: &G) -> (r: Result<(), CardinalError>) {
        self.0.shader_setup(gpu)
    }

    fn requirements(&self) -> (r: ComponentRequirements) {
        self.0.requirements()
    }

    fn note(&mut self, kind: CallKind, seal: Defaulted) {
        self.0.note(kind, seal)
    }
}

} // verus!
