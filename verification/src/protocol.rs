use crate::actor::{Phase, Stage, Turn};
use crate::driver::{conclude, concluded, Refusal};
use crate::effect::Effect;
use crate::error::{InvokeError, LuaError};
use crate::message::{LuaMessage, MessageModel};
use crate::registry::Continuations;
use crate::value::ScriptValue;
use vstd::prelude::*;
use vstd::utf8::encode_utf8;

verus! {

/// The place in the interpreter's registry where the host keeps the entry
/// points of the prelude.
pub const SLOT: &'static str = "actix_lua";

/// The name under which the prelude is compiled.
pub const PRELUDE_NAME: &'static str = "Prelude";

/// The entry points of the prelude.
#[derive(Debug, Clone, Copy, PartialEq, Eq, Structural)]
pub enum Entry {
    /// Takes the script of a phase.
    Load,
    /// Runs the script of a phase.
    Run,
    /// Goes on with a suspended script.
    Resume,
}

/// The name of an entry point.
pub open spec fn entry_name(entry: Entry) -> Seq<char> {
    match entry {
        Entry::Load => "load"@,
        Entry::Run => "run"@,
        Entry::Resume => "resume"@,
    }
}

/// The name of an entry point.
pub fn entry_text(entry: Entry) -> (r: &'static str)
    ensures
        r@ == entry_name(entry),
{
    match entry {
        Entry::Load => "load",
        Entry::Run => "run",
        Entry::Resume => "resume",
    }
}

/// The name of a phase, as the prelude knows it.
pub open spec fn phase_name(phase: Phase) -> Seq<char> {
    match phase {
        Phase::Started => "started"@,
        Phase::Handle => "handle"@,
        Phase::Stopped => "stopped"@,
    }
}

/// The name of a phase, as the prelude knows it.
pub fn phase_text(phase: Phase) -> (r: &'static str)
    ensures
        r@ == phase_name(phase),
{
    match phase {
        Phase::Started => "started",
        Phase::Handle => "handle",
        Phase::Stopped => "stopped",
    }
}

/// What the entry point `load` is called with for the script of a phase:
/// the text of the script, then the name of the phase.
pub fn load_request(source: &str, phase: Phase) -> (r: Vec<ScriptValue>)
    ensures
        r@.len() == 2,
        r@[0] matches ScriptValue::String(bytes) && bytes@ == encode_utf8(source@),
        r@[1] matches ScriptValue::String(bytes) && bytes@ == encode_utf8(phase_name(phase)),
{
    let mut r: Vec<ScriptValue> = Vec::new();
    r.push(ScriptValue::text(source));
    r.push(ScriptValue::text(phase_text(phase)));
    r
}

/// What the entry point `run` is called with, after the bridge: the name
/// of the phase, and the message where there is one.
pub fn run_request(phase: Phase, msg: Option<LuaMessage>) -> (r: Vec<LuaMessage>)
    ensures
        r@.len() == if msg is Some { 2int } else { 1int },
        r@[0]@ == MessageModel::String(phase_name(phase)),
        msg matches Some(m) ==> r@[1] == m,
{
    let mut r: Vec<LuaMessage> = Vec::new();
    r.push(LuaMessage::from(phase_text(phase)));
    match msg {
        Some(m) => {
            r.push(m);
        },
        None => {},
    }
    r
}

/// What the entry point `resume` is called with, after the bridge: the
/// identifier of the continuation, then the reply that it has waited for.
pub fn resume_request(id: i64, reply: LuaMessage) -> (r: Vec<LuaMessage>)
    ensures
        r@.len() == 2,
        r@[0] == LuaMessage::Integer(id),
        r@[1] == reply,
{
    let mut r: Vec<LuaMessage> = Vec::new();
    r.push(LuaMessage::from(id));
    r.push(reply);
    r
}

/// The scripts of an actor that a script has made: the one script given is
/// what the new actor handles its messages with.
pub fn child_scripts(script: String) -> (r: (Option<String>, Option<String>, Option<String>))
    ensures
        r.0 is None,
        r.1 == Some(script),
        r.2 is None,
{
    (None, Some(script), None)
}

/// The steps of loading an interpreter, in their order.
#[derive(Debug, Clone, Copy, PartialEq, Eq, Structural)]
pub enum LoadStep {
    Prelude,
    Started,
    Handle,
    Stopped,
    Done,
}

/// How many steps there can still be from `step` on.
pub open spec fn steps_left(step: LoadStep) -> nat {
    match step {
        LoadStep::Prelude => 4,
        LoadStep::Started => 3,
        LoadStep::Handle => 2,
        LoadStep::Stopped => 1,
        LoadStep::Done => 0,
    }
}

/// The step that follows `step` where it went well: the next phase, in the
/// order started, handle, stopped, for which a script was given; when there
/// is none left the loading is done.
pub open spec fn next_step(step: LoadStep, started: bool, handle: bool, stopped: bool) -> LoadStep {
    match step {
        LoadStep::Prelude => if started {
            LoadStep::Started
        } else {
            next_step_after_started(handle, stopped)
        },
        LoadStep::Started => next_step_after_started(handle, stopped),
        LoadStep::Handle => if stopped {
            LoadStep::Stopped
        } else {
            LoadStep::Done
        },
        LoadStep::Stopped => LoadStep::Done,
        LoadStep::Done => LoadStep::Done,
    }
}

/// The step that follows the loading of the script for the phase "started",
/// or its being left out.
pub open spec fn next_step_after_started(handle: bool, stopped: bool) -> LoadStep {
    if handle {
        LoadStep::Handle
    } else if stopped {
        LoadStep::Stopped
    } else {
        LoadStep::Done
    }
}

/// What follows a step of the loading, once `outcome` says how it went. A
/// step that failed ends the loading with its error; after one that went
/// well comes the next phase with a script, and a phase without a script is
/// left out and adds no error.
pub fn after_load(
    step: LoadStep,
    outcome: Result<(), LuaError>,
    started: bool,
    handle: bool,
    stopped: bool,
) -> (r: Result<LoadStep, LuaError>)
    ensures
        outcome matches Err(e) ==> r == Err::<LoadStep, LuaError>(e),
        outcome is Ok ==> r == Ok::<LoadStep, LuaError>(next_step(step, started, handle, stopped)),
        r matches Ok(next) ==> step != LoadStep::Done ==> steps_left(next) < steps_left(step),
{
    match outcome {
        Err(e) => Err(e),
        Ok(_) => {
            let after_started = if handle {
                LoadStep::Handle
            } else if stopped {
                LoadStep::Stopped
            } else {
                LoadStep::Done
            };
            Ok(
                match step {
                    LoadStep::Prelude => if started {
                        LoadStep::Started
                    } else {
                        after_started
                    },
                    LoadStep::Started => after_started,
                    LoadStep::Handle => if stopped {
                        LoadStep::Stopped
                    } else {
                        LoadStep::Done
                    },
                    LoadStep::Stopped => LoadStep::Done,
                    LoadStep::Done => LoadStep::Done,
                },
            )
        },
    }
}

/// What an invocation comes to, once `outcome` says what the interpreter
/// made of it: the turn, and the stage that the actor is in from then on.
///
/// An error of the interpreter is handed on as the script's failure, never
/// as a reply. What the entry point returned is read as `concluded` says;
/// where that gives a reply, the turn holds it and the effects that the
/// bridge took, and the actor is in the stage `then`. Every failure leaves
/// the actor failed.
pub fn settle(
    outcome: Result<Option<Vec<ScriptValue>>, LuaError>,
    first: i64,
    book: &Continuations,
    effects: Vec<Effect>,
    then: Stage,
) -> (r: (Result<Turn, InvokeError>, Stage))
    ensures
        match outcome {
            Err(e) => r.0 matches Err(InvokeError::Script(f)) && f == e,
            Ok(returned) => match concluded(
                match returned {
                    Some(values) => Some(values@),
                    None => None,
                },
                first as int,
                book.waiting(),
            ) {
                Ok(model) => r.0 matches Ok(turn) && turn.reply@ == model && turn.effects@
                    == effects@,
                Err(Refusal::Reply(e)) => r.0 matches Err(InvokeError::Reply(f)) && f == e,
                Err(Refusal::UnknownContinuation(id)) => r.0 matches Err(
                    InvokeError::UnknownContinuation(i),
                ) && i == id,
            },
        },
        r.1 == if r.0 is Ok {
            then
        } else {
            Stage::Failed
        },
{
    match outcome {
        Err(e) => (Err(InvokeError::Script(e)), Stage::Failed),
        Ok(returned) => match conclude(&returned, first, book) {
            Ok(reply) => (Ok(Turn { reply, effects }), then),
            Err(e) => (Err(e), Stage::Failed),
        },
    }
}

} // verus!
