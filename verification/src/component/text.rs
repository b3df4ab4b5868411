//! A leaf that holds a line of text.
use vstd::prelude::*;
use crate::capability::ComponentRequirements;
use crate::component::{kinds, Call, CallKind, Component, Defaulted, InputEvent};
use crate::surface::SurfaceConfiguration;
use crate::CardinalError;

verus! {

pub struct Text {
    text: String,
    log: Ghost<Seq<Call>>,
}

impl Text {
    /// The text that the leaf holds.
    pub closed spec fn content(&self) -> Seq<char> {
        self.text@
    }

    pub closed spec fn history(&self) -> Seq<Call> {
        self.log@
    }

    /// Enters a call that was answered `Ok`.
    fn enter(&mut self, kind: CallKind)
        ensures
            final(self).history() == old(self).history().push(Call { kind, failure: None }),
            final(self).content() == old(self).content(),
    {
        self.log = Ghost(self.log@.push(Call { kind, failure: None }));
    }

    pub fn as_str(&self) -> (r: &str)
        ensures
            r@ == self.content(),
    {
        self.text.as_str()
    }
}

impl<G> Component<G> for Text {
    open spec fn calls(&self) -> Seq<Call> {
        self.history()
    }

    open spec fn reached(&self) -> Seq<CallKind> {
        kinds(self.history())
    }

    open spec fn requirements_spec(&self) -> ComponentRequirements {
        ComponentRequirements::minimal_spec()
    }

    /// A text needs no setup: this always succeeds and keeps the content.
    fn init(&mut self, config: &SurfaceConfiguration, gpu: &G) -> (r: Result<(), CardinalError>)
        ensures
            r is Ok,
            final(self).content() == old(self).content(),
    {
        self.enter(CallKind::Init(*config));
        Ok(())
    }

    fn resize(&mut self, config: &SurfaceConfiguration, gpu: &G) -> (r: Result<(), CardinalError>)
        ensures
            r is Ok,
            final(self).content() == old(self).content(),
    {
        self.enter(CallKind::Resize(*config));
        Ok(())
    }

    fn tick(&mut self, gpu: &G) -> (r: Result<(), CardinalError>)
        ensures
            r is Ok,
            final(self).content() == old(self).content(),
    {
        self.enter(CallKind::Tick);
        Ok(())
    }

    fn frame(&mut self, event: &InputEvent, gpu: &G) -> (r: Result<(), CardinalError>)
        ensures
            r is Ok,
            final(self).content() == old(self).content(),
    {
        self.enter(CallKind::Frame(*event));
        Ok(())
    }

    fn render(&mut self, gpu: &G) -> (r: Result<(), CardinalError>)
        ensures
            r is Ok,
            final(self).content() == old(self).content(),
    {
        self.enter(CallKind::Render);
        Ok(())
    }

    fn shader_setup(&mut self, gpu: &G) -> (r: Result<(), CardinalError>)
        ensures
            r is Ok,
            final(self).content() == old(self).content(),
    {
        self.enter(CallKind::ShaderSetup);
        Ok(())
    }

    fn requirements(&self) -> (r: ComponentRequirements) {
        ComponentRequirements::minimal()
    }

    fn note(&mut self, kind: CallKind, seal: Defaulted)
        ensures
            final(self).content() == old(self).content(),
    {
        self.enter(kind);
    }
}

/// A text leaf with this content that has not been called yet.
pub fn text(content: &'static str) -> (r: Text)
    ensures
        r.content() == content@,
        r.history() == Seq::<Call>::empty(),
{
    Text { text: content.to_string(), log: Ghost(Seq::empty()) }
}

} // verus!
