use crate::actor::{LuaActor, Phase, Stage};
use crate::error::LuaError;
use vstd::prelude::*;

verus! {

/// Collects the scripts of an actor, phase by phase, and makes the actor.
///
/// A phase that is given no script gets one that does nothing.
pub struct LuaActorBuilder {
    started: Option<String>,
    handle: Option<String>,
    stopped: Option<String>,
}

/// The text of a given script.
pub open spec fn script_text(script: Option<String>) -> Option<Seq<char>> {
    match script {
        Some(source) => Some(source@),
        None => None,
    }
}

impl Default for LuaActorBuilder {
    /// A builder whose three scripts do nothing.
    fn default() -> (r: LuaActorBuilder)
        ensures
            r.script(Phase::Started) == Some("return"@),
            r.script(Phase::Handle) == Some("return"@),
            r.script(Phase::Stopped) == Some("return"@),
    {
        LuaActorBuilder {
            started: Some("return".to_owned()),
            handle: Some("return".to_owned()),
            stopped: Some("return".to_owned()),
        }
    }
}

impl LuaActorBuilder {
    /// The script that the builder holds for the phase.
    pub closed spec fn script(&self, phase: Phase) -> Option<Seq<char>> {
        match phase {
            Phase::Started => script_text(self.started),
            Phase::Handle => script_text(self.handle),
            Phase::Stopped => script_text(self.stopped),
        }
    }

    /// A builder whose three scripts do nothing.
    pub fn new() -> (r: LuaActorBuilder)
        ensures
            r.script(Phase::Started) == Some("return"@),
            r.script(Phase::Handle) == Some("return"@),
            r.script(Phase::Stopped) == Some("return"@),
    {
        LuaActorBuilder::default()
    }

    /// Takes `script` as the script of the phase "started".
    pub fn on_started_with_lua(self, script: &str) -> (r: LuaActorBuilder)
        ensures
            r.script(Phase::Started) == Some(script@),
            r.script(Phase::Handle) == self.script(Phase::Handle),
            r.script(Phase::Stopped) == self.script(Phase::Stopped),
    {
        LuaActorBuilder { started: Some(script.to_owned()), handle: self.handle, stopped: self.stopped }
    }

    /// Takes `script` as the script of the phase "handle".
    pub fn on_handle_with_lua(self, script: &str) -> (r: LuaActorBuilder)
        ensures
            r.script(Phase::Started) == self.script(Phase::Started),
            r.script(Phase::Handle) == Some(script@),
            r.script(Phase::Stopped) == self.script(Phase::Stopped),
    {
        LuaActorBuilder { started: self.started, handle: Some(script.to_owned()), stopped: self.stopped }
    }

    /// Takes `script` as the script of the phase "stopped".
    pub fn on_stopped_with_lua(self, script: &str) -> (r: LuaActorBuilder)
        ensures
            r.script(Phase::Started) == self.script(Phase::Started),
            r.script(Phase::Handle) == self.script(Phase::Handle),
            r.script(Phase::Stopped) == Some(script@),
    {
        LuaActorBuilder { started: self.started, handle: self.handle, stopped: Some(script.to_owned()) }
    }

    /// Makes the actor on the interpreter `vm`, which the caller has set up.
    /// A script that is no program makes no actor.
    pub fn build_with_vm<R>(self, vm: rlua::Lua) -> (r: Result<LuaActor<R>, LuaError>)
        ensures
            r matches Ok(actor) ==> {
                &&& actor.stage() == Stage::Created
                &&& actor.registered() == Map::<Seq<char>, R>::empty()
                &&& actor.next_id() == 1
                &&& actor.waiting() == Set::<int>::empty()
                &&& actor.children() == 0
                &&& actor.has_phase(Phase::Started) == self.script(Phase::Started) is Some
                &&& actor.has_phase(Phase::Handle) == self.script(Phase::Handle) is Some
                &&& actor.has_phase(Phase::Stopped) == self.script(Phase::Stopped) is Some
            },
    {
        LuaActor::new_with_vm(vm, self.started, self.handle, self.stopped)
    }

    /// Makes the actor on an interpreter of its own. A script that is no
    /// program makes no actor.
    pub fn build<R>(self) -> (r: Result<LuaActor<R>, LuaError>)
        ensures
            r matches Ok(actor) ==> {
                &&& actor.stage() == Stage::Created
                &&& actor.registered() == Map::<Seq<char>, R>::empty()
                &&& actor.next_id() == 1
                &&& actor.waiting() == Set::<int>::empty()
                &&& actor.children() == 0
                &&& actor.has_phase(Phase::Started) == self.script(Phase::Started) is Some
                &&& actor.has_phase(Phase::Handle) == self.script(Phase::Handle) is Some
                &&& actor.has_phase(Phase::Stopped) == self.script(Phase::Stopped) is Some
            },
    {
        LuaActor::new(self.started, self.handle, self.stopped)
    }
}

} // verus!
