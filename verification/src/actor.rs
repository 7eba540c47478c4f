use crate::bridge::{names_of, Bridge};
use crate::effect::{
    effects_model, made_before, sent_in, Effect, EffectModel, SendAttempt, SendAttemptResult,
};
use crate::convert::{marker_free, ConversionError};
use crate::decimal::decimal;
use crate::directory::{directory, lemma_directory_lookup, lookup, register};
use crate::driver::marshal;
use crate::error::{InvokeError, LuaError};
use crate::lua_prelude::PRELUDE;
use crate::message::{LuaMessage, MessageModel};
use crate::registry::Continuations;
use crate::value::ScriptValue;
use crate::protocol::{
    after_load, entry_text, load_request, resume_request, run_request, settle, steps_left, Entry,
    LoadStep, PRELUDE_NAME, SLOT,
};
use crate::vm::{in_context, install, lua_error, new_vm, with_bridge};
use vstd::prelude::*;

verus! {

/// Where an actor stands in its life.
#[derive(Debug, Clone, Copy, PartialEq, Eq, Structural)]
pub enum Stage {
    /// Made, not started yet.
    Created,
    /// Started; it handles messages.
    Running,
    /// Stopped, for good.
    Stopped,
    /// A script failed. It does not run again.
    Failed,
}

impl Stage {
    /// Whether an actor that is in the stage `self` can ever be in the stage
    /// `later`.
    pub open spec fn leads_to(self, later: Stage) -> bool {
        match self {
            Stage::Created => true,
            Stage::Running => later != Stage::Created,
            Stage::Stopped => later == Stage::Stopped,
            Stage::Failed => later == Stage::Failed,
        }
    }
}

/// The life of an actor goes one way: a stage leads to itself, what a later
/// stage leads to the earlier one leads to as well, and two stages that lead
/// to each other are one. So an actor is started once at most and stopped
/// once at most, and one that has stopped or failed stays so.
pub proof fn lemma_life_goes_one_way(a: Stage, b: Stage, c: Stage)
    ensures
        a.leads_to(a),
        a.leads_to(b) && b.leads_to(c) ==> a.leads_to(c),
        a.leads_to(b) && b.leads_to(a) ==> a == b,
{
}

/// The three entry points that a script can give an actor.
#[derive(Debug, Clone, Copy, PartialEq, Eq, Structural)]
pub enum Phase {
    Started,
    Handle,
    Stopped,
}

/// What one invocation produced: the reply, and what the host is to do.
#[derive(Debug)]
pub struct Turn {
    pub reply: LuaMessage,
    pub effects: Vec<Effect>,
}

/// An actor whose behaviour is written in scripts.
///
/// It owns one interpreter for its whole life, and with it the state that
/// its scripts keep and the coroutines that wait for a reply. It knows other
/// actors by name. Its host starts it, hands it the messages of its mailbox
/// one at a time, and stops it; every such invocation gives a reply and the
/// effects that the script asked for, which the host carries out.
///
/// `R` is whatever the host uses to reach an actor.
pub struct LuaActor<R> {
    vm: rlua::Lua,
    pub recipients: Vec<(String, R)>,
    continuations: Continuations,
    children: u64,
    stage: Stage,
    started: bool,
    handle: bool,
    stopped: bool,
}

/// Whether the effects of an invocation are in order: a `do_send` goes to a
/// name that the actor had registered or that an earlier effect makes; a
/// `send` has an identifier that was taken during the invocation and is above
/// the identifiers of the `send`s before it; and the continuations that wait
/// afterwards are those that `waited` and those of the `send`s, one for one.
pub open spec fn effects_in_order(
    effects: Seq<EffectModel>,
    names: Set<Seq<char>>,
    first: int,
    next: int,
    waited: Set<int>,
    waiting: Set<int>,
) -> bool {
    &&& forall|id: int| waiting.contains(id) <==> waited.contains(id) || sent_in(effects, id)
    &&& forall|i: int|
        0 <= i < effects.len() ==> match #[trigger] effects[i] {
            EffectModel::Send { id, .. } => first <= id < next && waiting.contains(id),
            EffectModel::DoSend { recipient, .. } => names.contains(recipient) || made_before(
                effects,
                i,
                recipient,
            ),
            _ => true,
        }
    &&& forall|i: int, j: int|
        0 <= i < j < effects.len() ==> match (#[trigger] effects[i], #[trigger] effects[j]) {
            (EffectModel::Send { id: a, .. }, EffectModel::Send { id: b, .. }) => a < b,
            _ => true,
        }
}

impl<R> LuaActor<R> {
    /// Where the actor stands in its life.
    pub closed spec fn spec_stage(&self) -> Stage {
        self.stage
    }

    /// Where the actor stands in its life.
    #[verifier::when_used_as_spec(spec_stage)]
    pub fn stage(&self) -> (r: Stage)
        ensures
            r == self.stage(),
    {
        self.stage
    }

    /// Whether a script was given for the phase.
    pub closed spec fn spec_has_phase(&self, phase: Phase) -> bool {
        match phase {
            Phase::Started => self.started,
            Phase::Handle => self.handle,
            Phase::Stopped => self.stopped,
        }
    }

    /// Whether a script was given for the phase.
    #[verifier::when_used_as_spec(spec_has_phase)]
    pub fn has_phase(&self, phase: Phase) -> (r: bool)
        ensures
            r == self.has_phase(phase),
    {
        match phase {
            Phase::Started => self.started,
            Phase::Handle => self.handle,
            Phase::Stopped => self.stopped,
        }
    }

    /// Whether the continuation `id` waits for a reply.
    pub fn is_waiting(&self, id: i64) -> (r: bool)
        ensures
            r == self.waiting().contains(id as int),
    {
        self.continuations.is_waiting(id)
    }

    /// How many continuations wait for a reply.
    pub fn waiting_count(&self) -> (r: usize)
        ensures
            self.waiting().finite(),
            r == self.waiting().len(),
    {
        self.continuations.len()
    }

    /// The least identifier that the next suspension can bring.
    pub closed spec fn next_id(&self) -> int {
        self.continuations.next_id()
    }

    /// The continuations that wait for a reply.
    pub closed spec fn waiting(&self) -> Set<int> {
        self.continuations.waiting()
    }

    /// The number that the next made-up name is tried with.
    pub closed spec fn children(&self) -> nat {
        self.children as nat
    }

    /// The actors that the actor knows, by name.
    pub closed spec fn registered(&self) -> Map<Seq<char>, R> {
        directory(self.recipients@)
    }

    /// The names under which the actor knows other actors.
    pub open spec fn names(&self) -> Set<Seq<char>> {
        self.registered().dom()
    }

    /// Whether nothing but the stage differs between `self` and `before`.
    pub open spec fn same_but_stage(&self, before: &Self) -> bool {
        &&& self.registered() == before.registered()
        &&& self.next_id() == before.next_id()
        &&& self.waiting() == before.waiting()
        &&& self.children() == before.children()
        &&& forall|phase: Phase| self.has_phase(phase) == before.has_phase(phase)
    }

    /// Whether an invocation can have led from `before` to `self`, apart
    /// from the stage: the recipients and the scripts are the same, the
    /// continuations that waited still wait, and those that wait now and did
    /// not before were taken since.
    pub open spec fn grown_from(&self, before: &Self) -> bool {
        &&& self.registered() == before.registered()
        &&& before.next_id() <= self.next_id()
        &&& before.waiting().subset_of(self.waiting())
        &&& forall|id: int|
            self.waiting().contains(id) ==> before.waiting().contains(id) || before.next_id()
                <= id
        &&& before.children() <= self.children()
        &&& forall|phase: Phase| self.has_phase(phase) == before.has_phase(phase)
    }

    /// Whether `r` and `self` are what an invocation of a script makes of
    /// `before`, where `then` is the stage that a reply leads to. A failure
    /// of the script, or a result that is no message, leaves the actor
    /// failed.
    pub open spec fn ran(&self, before: &Self, r: Result<Turn, InvokeError>, then: Stage) -> bool {
        &&& self.grown_from(before)
        &&& match r {
            Ok(turn) => self.stage() == then && self.in_order(before, before.waiting(), &turn),
            Err(InvokeError::Script(_)) => self.stage() == Stage::Failed,
            Err(InvokeError::Reply(_)) => self.stage() == Stage::Failed,
            Err(InvokeError::UnknownContinuation(_)) => self.stage() == Stage::Failed,
            Err(_) => false,
        }
    }

    /// Whether `self` is `before` in the stage `then`.
    pub open spec fn moved_from(&self, before: &Self, then: Stage) -> bool {
        self.stage() == then && self.same_but_stage(before)
    }

    /// Whether `turn` is in order as the outcome of an invocation that led
    /// from `before` to `self`, where the continuations `waited` when the
    /// script began to run: the effects are in order, and a reply that says
    /// that the script has suspended names the continuation of a `send` among
    /// them, which waits.
    pub open spec fn in_order(&self, before: &Self, waited: Set<int>, turn: &Turn) -> bool {
        &&& effects_in_order(
            effects_model(turn.effects@),
            before.names(),
            before.next_id(),
            self.next_id(),
            waited,
            self.waiting(),
        )
        &&& turn.reply@ matches MessageModel::ThreadYield(text) ==> exists|id: int|
            self.waiting().contains(id) && sent_in(effects_model(turn.effects@), id) && text
                == decimal(id)
    }

    /// Hands one phase's script to the interpreter, as `load_request` says;
    /// a phase without a script is left out.
    fn load_phase(vm: &rlua::Lua, script: &Option<String>, phase: Phase) -> (r: Result<
        (),
        LuaError,
    >)
        ensures
            script is None ==> r is Ok,
    {
        match script {
            None => Ok(()),
            Some(source) => {
                let args = load_request(source.as_str(), phase);
                match in_context(vm, SLOT, entry_text(Entry::Load), &args) {
                    Err(e) => Err(lua_error(e)),
                    Ok(_) => Ok(()),
                }
            },
        }
    }

    /// Takes one step of the loading: runs the prelude, or hands over the
    /// script of a phase.
    fn load_step(
        vm: &rlua::Lua,
        step: LoadStep,
        started: &Option<String>,
        handle: &Option<String>,
        stopped: &Option<String>,
    ) -> (r: Result<(), LuaError>)
        ensures
            step == LoadStep::Done ==> r is Ok,
    {
        match step {
            LoadStep::Prelude => match install(vm, PRELUDE, PRELUDE_NAME, SLOT) {
                Err(e) => Err(lua_error(e)),
                Ok(_) => Ok(()),
            },
            LoadStep::Started => Self::load_phase(vm, started, Phase::Started),
            LoadStep::Handle => Self::load_phase(vm, handle, Phase::Handle),
            LoadStep::Stopped => Self::load_phase(vm, stopped, Phase::Stopped),
            LoadStep::Done => Ok(()),
        }
    }

    /// Loads the interpreter: runs the prelude on it, then hands it the
    /// scripts. Which step follows which, and that the first step that fails
    /// ends the loading with its error, `after_load` says; how a step goes
    /// the interpreter decides.
    fn load(
        vm: &rlua::Lua,
        started: &Option<String>,
        handle: &Option<String>,
        stopped: &Option<String>,
    ) -> (r: Result<(), LuaError>) {
        let mut step = LoadStep::Prelude;
        while step != LoadStep::Done
            decreases steps_left(step),
        {
            let outcome = Self::load_step(vm, step, started, handle, stopped);
            step =
            match after_load(step, outcome, started.is_some(), handle.is_some(), stopped.is_some()) {
                Ok(next) => next,
                Err(e) => {
                    return Err(e);
                },
            };
        }
        Ok(())
    }

    /// Makes the actor of an interpreter once `loaded` says how the loading
    /// of its scripts went: where it failed there is no actor, and the error
    /// is handed on; where it went well the actor is new, knows nobody, and
    /// has the phases for which a script was given.
    pub fn assemble(
        vm: rlua::Lua,
        loaded: Result<(), LuaError>,
        started: bool,
        handle: bool,
        stopped: bool,
    ) -> (r: Result<LuaActor<R>, LuaError>)
        ensures
            match loaded {
                Err(e) => r matches Err(f) && f == e,
                Ok(_) => r matches Ok(actor) && {
                    &&& actor.stage() == Stage::Created
                    &&& actor.registered() == Map::<Seq<char>, R>::empty()
                    &&& actor.next_id() == 1
                    &&& actor.waiting() == Set::<int>::empty()
                    &&& actor.children() == 0
                    &&& actor.has_phase(Phase::Started) == started
                    &&& actor.has_phase(Phase::Handle) == handle
                    &&& actor.has_phase(Phase::Stopped) == stopped
                },
            },
    {
        match loaded {
            Err(e) => Err(e),
            Ok(_) => Ok(
                LuaActor {
                    vm,
                    recipients: Vec::new(),
                    continuations: Continuations::new(),
                    children: 0,
                    stage: Stage::Created,
                    started,
                    handle,
                    stopped,
                },
            ),
        }
    }

    /// Makes an actor on the interpreter `vm` from up to three scripts, one
    /// for each phase.
    ///
    /// The interpreter first runs the prelude, then takes the scripts in the
    /// order started, handle, stopped. The first of these steps that fails
    /// ends the making, with its error: a script that is no program makes no
    /// actor. What becomes of the outcome of the loading is said by
    /// `assemble`.
    pub fn new_with_vm(
        vm: rlua::Lua,
        started: Option<String>,
        handle: Option<String>,
        stopped: Option<String>,
    ) -> (r: Result<LuaActor<R>, LuaError>)
        ensures
            r matches Ok(actor) ==> {
                &&& actor.stage() == Stage::Created
                &&& actor.registered() == Map::<Seq<char>, R>::empty()
                &&& actor.next_id() == 1
                &&& actor.waiting() == Set::<int>::empty()
                &&& actor.children() == 0
                &&& actor.has_phase(Phase::Started) == started is Some
                &&& actor.has_phase(Phase::Handle) == handle is Some
                &&& actor.has_phase(Phase::Stopped) == stopped is Some
            },
    {
        let loaded = Self::load(&vm, &started, &handle, &stopped);
        Self::assemble(vm, loaded, started.is_some(), handle.is_some(), stopped.is_some())
    }

    /// Makes an actor on an interpreter of its own.
    pub fn new(started: Option<String>, handle: Option<String>, stopped: Option<String>) -> (r:
        Result<LuaActor<R>, LuaError>)
        ensures
            r matches Ok(actor) ==> {
                &&& actor.stage() == Stage::Created
                &&& actor.registered() == Map::<Seq<char>, R>::empty()
                &&& actor.next_id() == 1
                &&& actor.waiting() == Set::<int>::empty()
                &&& actor.children() == 0
                &&& actor.has_phase(Phase::Started) == started is Some
                &&& actor.has_phase(Phase::Handle) == handle is Some
                &&& actor.has_phase(Phase::Stopped) == stopped is Some
            },
    {
        Self::new_with_vm(new_vm(), started, handle, stopped)
    }

    /// Registers a recipient under `name`, in place of the one that had the
    /// name before, which is handed back. Scripts reach it with
    /// `ctx.send(name, message)` and `ctx.do_send(name, message)`.
    pub fn add_recipients(&mut self, name: &str, rec: R) -> (r: Option<R>)
        ensures
            final(self).registered() == old(self).registered().insert(name@, rec),
            r == if old(self).names().contains(name@) {
                Some(old(self).registered()[name@])
            } else {
                None
            },
            final(self).stage() == old(self).stage(),
            final(self).next_id() == old(self).next_id(),
            final(self).waiting() == old(self).waiting(),
            final(self).children() == old(self).children(),
            forall|phase: Phase| final(self).has_phase(phase) == old(self).has_phase(phase),
    {
        register(&mut self.recipients, name, rec)
    }

    /// The recipient registered under `name`.
    pub fn recipient(&self, name: &str) -> (r: Option<&R>)
        ensures
            match r {
                Some(rec) => self.names().contains(name@) && *rec == self.registered()[name@],
                None => !self.names().contains(name@),
            },
    {
        lookup(&self.recipients, name)
    }

    /// The recipient that a request for a reply goes to; `None` where the
    /// actor knows nobody of that name: the request is then dropped, and the
    /// continuation goes on waiting.
    pub fn resolve(&self, attempt: &SendAttempt) -> (r: Option<&R>)
        ensures
            match r {
                Some(rec) => self.names().contains(attempt.recipient_name@) && *rec
                    == self.registered()[attempt.recipient_name@],
                None => !self.names().contains(attempt.recipient_name@),
            },
    {
        self.recipient(attempt.recipient_name.as_str())
    }

    /// The names under which the actor knows other actors.
    fn known_names(&self) -> (r: Vec<String>)
        ensures
            names_of(r@) == self.names(),
    {
        let mut names: Vec<String> = Vec::new();
        let mut i: usize = 0;
        while i < self.recipients.len()
            invariant
                i <= self.recipients.len(),
                names@.len() == i,
                forall|j: int| 0 <= j < i ==> (#[trigger] names@[j])@ == self.recipients@[j].0@,
            decreases self.recipients.len() - i,
        {
            names.push(self.recipients[i].0.clone());
            i = i + 1;
        }
        proof {
            assert forall|x: Seq<char>| names_of(names@).contains(x) <==> self.names().contains(
                x,
            ) by {
                lemma_directory_lookup(self.recipients@, x);
                if self.names().contains(x) {
                    let j = choose|j: int|
                        0 <= j < self.recipients@.len() && (#[trigger] self.recipients@[j]).0@
                            == x;
                    assert(names@[j]@ == x);
                }
            }
        }
        names
    }

    /// Whether `r` and `self` are what the invocation of an entry point
    /// with `args` makes of `before`, where `then` is the stage that a reply
    /// leads to. An argument with a `ThreadYield` in it is refused and
    /// nothing happens; otherwise the script decides.
    pub open spec fn invoked(
        &self,
        before: &Self,
        args: Seq<LuaMessage>,
        r: Result<Turn, InvokeError>,
        then: Stage,
    ) -> bool {
        if forall|i: int| 0 <= i < args.len() ==> marker_free(#[trigger] args[i]) {
            self.ran(before, r, then)
        } else {
            &&& r matches Err(InvokeError::Argument(ConversionError::ThreadYield))
            &&& self.moved_from(before, before.stage())
        }
    }

    /// One call into the scripts.
    ///
    /// Writes the arguments out for the interpreter. Sets up a bridge that
    /// knows the actor's recipients and goes on from its continuations. Lets
    /// the entry point run with that bridge in reach, and with nothing else
    /// of the host. Takes the effects off the bridge, which is of no use
    /// after that. What the outcome comes to, `settle` says; an entry point
    /// that the interpreter does not have gives `Nil`.
    fn invoke(&mut self, entry: Entry, args: Vec<LuaMessage>, then: Stage) -> (r: Result<
        Turn,
        InvokeError,
    >)
        ensures
            final(self).invoked(old(self), args@, r, then),
    {
        let payload = match marshal(&args) {
            Ok(payload) => payload,
            Err(e) => {
                return Err(InvokeError::Argument(e));
            },
        };
        proof {
            use_type_invariant(&self.continuations);
            self.continuations.lemma_bounds();
        }
        let names = self.known_names();
        let first = self.continuations.upcoming();
        let mut book = Continuations::new();
        core::mem::swap(&mut book, &mut self.continuations);
        let mut bridge = Bridge::new(names, book, self.children);
        let raw = with_bridge(&self.vm, &mut bridge, SLOT, entry_text(entry), &payload);
        let (book, children, effects) = bridge.finish();
        self.continuations = book;
        self.children = children;
        let outcome = match raw {
            Err(e) => Err(lua_error(e)),
            Ok(returned) => Ok(returned),
        };
        let ghost returned = outcome;
        let ghost recorded = effects_model(effects@);
        let (r, stage) = settle(outcome, first, &self.continuations, effects, then);
        self.stage = stage;
        proof {
            if r is Ok {
                assert(effects_model(r->Ok_0.effects@) == recorded);
                if r->Ok_0.reply@ is ThreadYield {
                    let id = returned->Ok_0->Some_0@[1]->Integer_0 as int;
                    assert(self.waiting().contains(id) && !old(self).waiting().contains(id));
                    assert(sent_in(recorded, id));
                }
            }
        }
        r
    }

    /// The turn of a phase for which no script was given.
    fn idle() -> (r: Turn)
        ensures
            r.reply@ == MessageModel::Nil,
            r.effects@.len() == 0,
    {
        Turn { reply: LuaMessage::Nil, effects: Vec::new() }
    }

    /// The host has started the actor: runs the script of the phase
    /// "started".
    ///
    /// Only an actor that was made and not started yet can be started. Where
    /// no script was given for the phase, the actor runs from now on and
    /// nothing else happens. Otherwise the script decides: see `ran`.
    pub fn started(&mut self) -> (r: Result<Turn, InvokeError>)
        ensures
            old(self).stage().leads_to(final(self).stage()),
            old(self).stage() != Stage::Created ==> {
                &&& r matches Err(InvokeError::OutOfPhase)
                &&& final(self).moved_from(old(self), old(self).stage())
            },
            old(self).stage() == Stage::Created && !old(self).has_phase(Phase::Started) ==> {
                &&& r matches Ok(turn) && turn.reply@ == MessageModel::Nil && turn.effects@.len()
                    == 0
                &&& final(self).moved_from(old(self), Stage::Running)
            },
            old(self).stage() == Stage::Created && old(self).has_phase(Phase::Started)
                ==> final(self).ran(old(self), r, Stage::Running),
    {
        if self.stage != Stage::Created {
            return Err(InvokeError::OutOfPhase);
        }
        if !self.started {
            self.stage = Stage::Running;
            return Ok(Self::idle());
        }
        self.invoke(Entry::Run, run_request(Phase::Started, None), Stage::Running)
    }

    /// The host has stopped the actor: runs the script of the phase
    /// "stopped". Whatever comes of it, the actor does not run again.
    ///
    /// Only a running actor can be stopped. Where no script was given for
    /// the phase, nothing else happens. Otherwise the script decides: see
    /// `ran`.
    pub fn stopped(&mut self) -> (r: Result<Turn, InvokeError>)
        ensures
            old(self).stage().leads_to(final(self).stage()),
            old(self).stage() != Stage::Running ==> {
                &&& r matches Err(InvokeError::OutOfPhase)
                &&& final(self).moved_from(old(self), old(self).stage())
            },
            old(self).stage() == Stage::Running && !old(self).has_phase(Phase::Stopped) ==> {
                &&& r matches Ok(turn) && turn.reply@ == MessageModel::Nil && turn.effects@.len()
                    == 0
                &&& final(self).moved_from(old(self), Stage::Stopped)
            },
            old(self).stage() == Stage::Running && old(self).has_phase(Phase::Stopped)
                ==> final(self).ran(old(self), r, Stage::Stopped),
    {
        if self.stage != Stage::Running {
            return Err(InvokeError::OutOfPhase);
        }
        if !self.stopped {
            self.stage = Stage::Stopped;
            return Ok(Self::idle());
        }
        self.invoke(Entry::Run, run_request(Phase::Stopped, None), Stage::Stopped)
    }

    /// A message has come in: runs the script of the phase "handle" on it
    /// and gives what the script returns. A script that suspends in a
    /// `ctx.send` gives `ThreadYield` with the identifier of its
    /// continuation.
    ///
    /// What the script returns may be a table of any size, nested no deeper
    /// than `NESTING_LIMIT`; what is nested deeper fails the actor like an
    /// error of the script.
    ///
    /// Only a running actor handles messages. Where no script was given for
    /// the phase, the reply is `Nil` and nothing else happens. A message with
    /// a `ThreadYield` in it is refused and nothing else happens. Otherwise
    /// the script decides: see `ran`.
    pub fn handle(&mut self, msg: LuaMessage) -> (r: Result<Turn, InvokeError>)
        ensures
            old(self).stage().leads_to(final(self).stage()),
            old(self).stage() != Stage::Running ==> {
                &&& r matches Err(InvokeError::OutOfPhase)
                &&& final(self).moved_from(old(self), old(self).stage())
            },
            old(self).stage() == Stage::Running && !old(self).has_phase(Phase::Handle) ==> {
                &&& r matches Ok(turn) && turn.reply@ == MessageModel::Nil && turn.effects@.len()
                    == 0
                &&& final(self).moved_from(old(self), Stage::Running)
            },
            old(self).stage() == Stage::Running && old(self).has_phase(Phase::Handle)
                && !marker_free(msg) ==> {
                &&& r matches Err(InvokeError::Argument(ConversionError::ThreadYield))
                &&& final(self).moved_from(old(self), Stage::Running)
            },
            old(self).stage() == Stage::Running && old(self).has_phase(Phase::Handle)
                && marker_free(msg) ==> final(self).ran(old(self), r, Stage::Running),
    {
        if self.stage != Stage::Running {
            return Err(InvokeError::OutOfPhase);
        }
        if !self.handle {
            return Ok(Self::idle());
        }
        let args = run_request(Phase::Handle, Some(msg));
        assert(marker_free(args@[0]) && args@[1] == msg);
        self.invoke(Entry::Run, args, Stage::Running)
    }

    /// A reply has come in for a continuation: the suspended script goes on
    /// with it, and what it returns is given as for `handle`.
    ///
    /// Only a running actor resumes. A reply for a continuation that does not
    /// wait is refused, and so is a reply with a `ThreadYield` in it; nothing
    /// else happens then. Otherwise the continuation waits no longer, and the
    /// script decides what comes of it.
    pub fn resume(&mut self, result: SendAttemptResult) -> (r: Result<Turn, InvokeError>)
        ensures
            old(self).stage().leads_to(final(self).stage()),
            old(self).stage() != Stage::Running ==> {
                &&& r matches Err(InvokeError::OutOfPhase)
                &&& final(self).moved_from(old(self), old(self).stage())
            },
            old(self).stage() == Stage::Running && !old(self).waiting().contains(
                result.cb_thread_id as int,
            ) ==> {
                &&& r matches Err(InvokeError::UnknownContinuation(id)) && id
                    == result.cb_thread_id
                &&& final(self).moved_from(old(self), Stage::Running)
            },
            old(self).stage() == Stage::Running && old(self).waiting().contains(
                result.cb_thread_id as int,
            ) && !marker_free(result.msg) ==> {
                &&& r matches Err(InvokeError::Argument(ConversionError::ThreadYield))
                &&& final(self).moved_from(old(self), Stage::Running)
            },
            old(self).stage() == Stage::Running && old(self).waiting().contains(
                result.cb_thread_id as int,
            ) && marker_free(result.msg) ==> {
                &&& final(self).registered() == old(self).registered()
                &&& old(self).next_id() <= final(self).next_id()
                &&& !final(self).waiting().contains(result.cb_thread_id as int)
                &&& forall|id: int|
                    id != result.cb_thread_id && old(self).waiting().contains(id)
                        ==> final(self).waiting().contains(id)
                &&& forall|id: int|
                    final(self).waiting().contains(id) ==> old(self).waiting().contains(id)
                        || old(self).next_id() <= id
                &&& match r {
                    Ok(turn) => final(self).stage() == Stage::Running && final(self).in_order(
                        old(self),
                        old(self).waiting().remove(result.cb_thread_id as int),
                        &turn,
                    ),
                    Err(InvokeError::Script(_)) => final(self).stage() == Stage::Failed,
                    Err(InvokeError::Reply(_)) => final(self).stage() == Stage::Failed,
                    Err(InvokeError::UnknownContinuation(_)) => final(self).stage()
                        == Stage::Failed,
                    Err(_) => false,
                }
            },
    {
        if self.stage != Stage::Running {
            return Err(InvokeError::OutOfPhase);
        }
        if !self.continuations.is_waiting(result.cb_thread_id) {
            return Err(InvokeError::UnknownContinuation(result.cb_thread_id));
        }
        if !result.msg.is_marker_free() {
            return Err(InvokeError::Argument(ConversionError::ThreadYield));
        }
        self.continuations.complete(result.cb_thread_id);
        let args = resume_request(result.cb_thread_id, result.msg);
        assert(marker_free(args@[0]) && args@[1] == result.msg);
        self.invoke(Entry::Resume, args, Stage::Running)
    }
}

} // verus!
