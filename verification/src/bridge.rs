use crate::decimal::{digits, natural_string};
use crate::effect::{effects_model, made_before, sent_in, Effect, EffectModel, SendAttempt};
use crate::message::MessageModel;
use crate::registry::Continuations;
use crate::request::{decode, decoded, BridgeError, Request, RequestModel};
use crate::value::{is_data, ScriptValue};
use vstd::prelude::*;
use vstd::string::StringExecFns;
use vstd::utf8::encode_utf8;

verus! {

broadcast use {vstd::utf8::encode_utf8_valid_utf8, vstd::utf8::encode_utf8_decode_utf8};

/// The name that the host makes up for the `n`th actor that a script makes
/// without naming it.
pub open spec fn child_name(n: nat) -> Seq<char> {
    "actor-"@ + digits(n)
}

/// What a bridge holds, apart from how it is laid out in memory.
#[verifier::ext_equal]
pub struct BridgeModel {
    /// The names that the actor had registered when the invocation began.
    pub initial: Set<Seq<char>>,
    /// The names that a `do_send` reaches: those, and the names of the actors
    /// that the script has made since.
    pub known: Set<Seq<char>>,
    /// The least identifier that the next `send` can bring.
    pub next_id: int,
    /// The continuations that waited when the invocation began.
    pub base: Set<int>,
    /// The continuations that wait for a reply: those, and the ones of the
    /// `send`s on record.
    pub waiting: Set<int>,
    /// The number that the next made-up name is tried with.
    pub children: nat,
    /// What the script has asked for so far.
    pub effects: Seq<EffectModel>,
}

impl BridgeModel {
    /// Every `send` on record has its continuation waiting, under an
    /// identifier that was taken and that is above those of the `send`s
    /// before it. The known names are those that the actor had registered and
    /// those of the new actors on record, and every `do_send` on record goes
    /// to a name that was known when the script asked for it.
    pub open spec fn coherent(self) -> bool {
        &&& 1 <= self.next_id <= i64::MAX
        &&& forall|name: Seq<char>|
            self.known.contains(name) <==> self.initial.contains(name) || made_before(
                self.effects,
                self.effects.len() as int,
                name,
            )
        &&& forall|i: int|
            0 <= i < self.effects.len() ==> (#[trigger] self.effects[i] matches EffectModel::DoSend {
                recipient,
                ..
            } ==> self.initial.contains(recipient) || made_before(self.effects, i, recipient))
        &&& forall|id: int| self.waiting.contains(id) ==> 1 <= id < self.next_id
        &&& forall|id: int|
            self.waiting.contains(id) <==> self.base.contains(id) || sent_in(self.effects, id)
        &&& forall|i: int|
            0 <= i < self.effects.len() ==> match #[trigger] self.effects[i] {
                EffectModel::Send { id, .. } => self.waiting.contains(id) && 1 <= id
                    < self.next_id,
                _ => true,
            }
        &&& forall|i: int, j: int|
            0 <= i < j < self.effects.len() ==> match (
                #[trigger] self.effects[i],
                #[trigger] self.effects[j],
            ) {
                (EffectModel::Send { id: a, .. }, EffectModel::Send { id: b, .. }) => a < b,
                _ => true,
            }
    }

    /// Whether `self` can have come out of `before` by serving calls: what
    /// was known, waiting or on record still is, no counter went back, and
    /// every `send` that came on record since has an identifier that was not
    /// taken before.
    pub open spec fn follows(self, before: BridgeModel) -> bool {
        &&& before.initial == self.initial
        &&& before.base == self.base
        &&& before.known.subset_of(self.known)
        &&& before.waiting.subset_of(self.waiting)
        &&& forall|id: int|
            self.waiting.contains(id) ==> before.waiting.contains(id) || before.next_id <= id
        &&& before.next_id <= self.next_id
        &&& before.children <= self.children
        &&& before.effects.len() <= self.effects.len()
        &&& forall|i: int|
            0 <= i < before.effects.len() ==> #[trigger] self.effects[i] == before.effects[i]
        &&& forall|i: int|
            before.effects.len() <= i < self.effects.len() ==> match #[trigger] self.effects[i] {
                EffectModel::Send { id, .. } => before.next_id <= id,
                _ => true,
            }
    }

    /// Whether `self` is what serving one request, with an answer for the
    /// script, makes of `before`.
    pub open spec fn answered_from(self, before: BridgeModel) -> bool {
        exists|request: RequestModel, reply: ScriptValue| #[trigger]
            before.served(request, self, Ok::<ScriptValue, BridgeError>(reply))
    }

    /// What serving one request does to a bridge, and what the script gets
    /// back.
    pub open spec fn served(
        self,
        request: RequestModel,
        after: BridgeModel,
        answer: Result<ScriptValue, BridgeError>,
    ) -> bool {
        match request {
            RequestModel::Notify(msg) => {
                &&& answer == Ok::<ScriptValue, BridgeError>(ScriptValue::Nil)
                &&& after == BridgeModel { effects: self.effects.push(EffectModel::Notify(msg)), ..self }
            },
            RequestModel::NotifyLater(msg, seconds) => {
                &&& answer == Ok::<ScriptValue, BridgeError>(ScriptValue::Nil)
                &&& after == BridgeModel {
                    effects: self.effects.push(EffectModel::NotifyLater(msg, seconds)),
                    ..self
                }
            },
            RequestModel::DoSend(recipient, msg) => {
                &&& answer == Ok::<ScriptValue, BridgeError>(ScriptValue::Nil)
                &&& after == if self.known.contains(recipient) {
                    BridgeModel {
                        effects: self.effects.push(EffectModel::DoSend { recipient, msg }),
                        ..self
                    }
                } else {
                    self
                }
            },
            RequestModel::Send(recipient, msg, id) => if self.next_id <= id < i64::MAX {
                &&& answer == Ok::<ScriptValue, BridgeError>(ScriptValue::Nil)
                &&& after == BridgeModel {
                    next_id: id + 1,
                    waiting: self.waiting.insert(id),
                    effects: self.effects.push(EffectModel::Send { recipient, msg, id }),
                    ..self
                }
            } else {
                &&& answer == Err::<ScriptValue, BridgeError>(BridgeError::Continuation)
                &&& after == self
            },
            RequestModel::Terminate => {
                &&& answer == Ok::<ScriptValue, BridgeError>(ScriptValue::Nil)
                &&& after == BridgeModel { effects: self.effects.push(EffectModel::Terminate), ..self }
            },
            RequestModel::NewActor(script, Some(name)) => {
                &&& answer matches Ok(ScriptValue::String(bytes)) && bytes@ == encode_utf8(name)
                &&& after == BridgeModel {
                    known: self.known.insert(name),
                    effects: self.effects.push(EffectModel::NewActor { name, script }),
                    ..self
                }
            },
            RequestModel::NewActor(script, None) => match answer {
                Ok(value) => {
                    let n = (after.children - 1) as nat;
                    &&& self.children <= n < u64::MAX
                    &&& forall|k: nat| self.children <= k < n ==> self.known.contains(child_name(k))
                    &&& !self.known.contains(child_name(n))
                    &&& value matches ScriptValue::String(bytes) && bytes@ == encode_utf8(
                        child_name(n),
                    )
                    &&& after == BridgeModel {
                        known: self.known.insert(child_name(n)),
                        children: n + 1,
                        effects: self.effects.push(
                            EffectModel::NewActor { name: child_name(n), script },
                        ),
                        ..self
                    }
                },
                Err(e) => {
                    &&& e == BridgeError::Exhausted
                    &&& forall|k: nat|
                        self.children <= k < u64::MAX ==> self.known.contains(child_name(k))
                    &&& after == self
                },
            },
        }
    }
}

/// The names, as texts, of a list of names.
pub open spec fn names_of(names: Seq<String>) -> Set<Seq<char>> {
    Set::new(|name: Seq<char>| exists|i: int| 0 <= i < names.len() && names[i]@ == name)
}

/// What stands between a running script and its host, for the length of one
/// invocation: it takes what the script asks for, answers at once, and keeps
/// the effects for the host to carry out afterwards.
pub struct Bridge {
    initial: Ghost<Set<Seq<char>>>,
    base: Ghost<Set<int>>,
    known: Vec<String>,
    continuations: Continuations,
    children: u64,
    effects: Vec<Effect>,
}

impl View for Bridge {
    type V = BridgeModel;

    closed spec fn view(&self) -> BridgeModel {
        BridgeModel {
            initial: self.initial@,
            known: names_of(self.known@),
            next_id: self.continuations.next_id(),
            base: self.base@,
            waiting: self.continuations.waiting(),
            children: self.children as nat,
            effects: effects_model(self.effects@),
        }
    }
}

impl Bridge {
    /// A bridge for one invocation: it knows the names in `known`, goes on
    /// from the continuations and the count of made-up names that the actor
    /// has reached, and has nothing on record.
    pub fn new(known: Vec<String>, continuations: Continuations, children: u64) -> (r: Bridge)
        ensures
            r@ == (BridgeModel {
                initial: names_of(known@),
                known: names_of(known@),
                next_id: continuations.next_id(),
                base: continuations.waiting(),
                waiting: continuations.waiting(),
                children: children as nat,
                effects: Seq::<EffectModel>::empty(),
            }),
            r@.coherent(),
    {
        proof {
            use_type_invariant(&continuations);
            continuations.lemma_bounds();
        }
        Bridge {
            initial: Ghost(names_of(known@)),
            base: Ghost(continuations.waiting()),
            known,
            continuations,
            children,
            effects: Vec::new(),
        }
    }

    /// Takes the bridge apart when the invocation is over.
    pub fn finish(self) -> (r: (Continuations, u64, Vec<Effect>))
        ensures
            r.0.next_id() == self@.next_id,
            r.0.waiting() == self@.waiting,
            r.1 == self@.children,
            effects_model(r.2@) == self@.effects,
    {
        (self.continuations, self.children, self.effects)
    }

    /// Whether a `do_send` to `name` reaches anyone.
    fn knows(&self, name: &String) -> (r: bool)
        ensures
            r == self@.known.contains(name@),
    {
        let mut i: usize = 0;
        while i < self.known.len()
            invariant
                i <= self.known.len(),
                forall|j: int| 0 <= j < i ==> self.known@[j]@ != name@,
            decreases self.known.len() - i,
        {
            if self.known[i] == *name {
                return true;
            }
            i = i + 1;
        }
        false
    }

    /// Puts an effect on record.
    fn record(&mut self, effect: Effect)
        ensures
            final(self)@ == (BridgeModel { effects: old(self)@.effects.push(effect@), ..old(self)@ }),
    {
        self.effects.push(effect);
    }

    /// Notes a name as known.
    fn learn(&mut self, name: String)
        ensures
            final(self)@ == (BridgeModel { known: old(self)@.known.insert(name@), ..old(self)@ }),
    {
        let ghost before = self.known@;
        self.known.push(name);
        proof {
            let after = self.known@;
            assert forall|x: Seq<char>|
                names_of(after).contains(x) <==> names_of(before).insert(name@).contains(x) by {
                if names_of(before).contains(x) {
                    let i = choose|i: int| 0 <= i < before.len() && before[i]@ == x;
                    assert(after[i]@ == x);
                }
                if x == name@ {
                    assert(after[before.len() as int]@ == x);
                }
            }
        }
    }

    /// Carries out one request of the script.
    pub fn apply(&mut self, request: Request) -> (r: Result<ScriptValue, BridgeError>)
        ensures
            old(self)@.served(request@, final(self)@, r),
    {
        match request {
            Request::Notify(msg) => {
                self.record(Effect::Notify(msg));
                Ok(ScriptValue::Nil)
            },
            Request::NotifyLater(msg, seconds) => {
                self.record(Effect::NotifyLater(msg, seconds));
                Ok(ScriptValue::Nil)
            },
            Request::DoSend(recipient, msg) => {
                if self.knows(&recipient) {
                    self.record(Effect::DoSend { recipient, msg });
                }
                Ok(ScriptValue::Nil)
            },
            Request::Send(recipient_name, msg, cb_thread_id) => {
                if self.continuations.enrol(cb_thread_id) {
                    self.record(Effect::Send(SendAttempt { recipient_name, msg, cb_thread_id }));
                    Ok(ScriptValue::Nil)
                } else {
                    Err(BridgeError::Continuation)
                }
            },
            Request::Terminate => {
                self.record(Effect::Terminate);
                Ok(ScriptValue::Nil)
            },
            Request::NewActor(script, Some(name)) => Ok(self.adopt(name, script)),
            Request::NewActor(script, None) => self.beget(script),
        }
    }

    /// Puts a new actor of the given name on record, and answers the name.
    fn adopt(&mut self, name: String, script: String) -> (r: ScriptValue)
        ensures
            r matches ScriptValue::String(bytes) && bytes@ == encode_utf8(name@),
            final(self)@ == (BridgeModel {
                known: old(self)@.known.insert(name@),
                effects: old(self)@.effects.push(
                    EffectModel::NewActor { name: name@, script: script@ },
                ),
                ..old(self)@
            }),
    {
        let answer = ScriptValue::text(name.as_str());
        self.learn(name.clone());
        self.record(Effect::NewActor { name, script });
        answer
    }

    /// Puts a new actor on record under the first made-up name that is not
    /// known yet, and answers the name.
    fn beget(&mut self, script: String) -> (r: Result<ScriptValue, BridgeError>)
        ensures
            old(self)@.served(RequestModel::NewActor(script@, None), final(self)@, r),
    {
        let mut n: u64 = self.children;
        while n < u64::MAX
            invariant
                *self == *old(self),
                self.children <= n,
                forall|k: nat| self.children <= k < n ==> self@.known.contains(child_name(k)),
            decreases u64::MAX - n,
        {
            let mut name = "actor-".to_owned();
            name.append(natural_string(n).as_str());
            if !self.knows(&name) {
                self.children = n + 1;
                let answer = self.adopt(name, script);
                return Ok(answer);
            }
            n = n + 1;
        }
        Err(BridgeError::Exhausted)
    }

    /// Answers one call of the script: reads what it asks and carries it
    /// out. A call that cannot be read changes nothing.
    pub fn serve(&mut self, call: &Vec<ScriptValue>) -> (r: Result<ScriptValue, BridgeError>)
        ensures
            match decoded(call@) {
                Ok(request) => old(self)@.served(request, final(self)@, r),
                Err(e) => r == Err::<ScriptValue, BridgeError>(e) && final(self)@ == old(self)@,
            },
            old(self)@.coherent() ==> final(self)@.coherent() && final(self)@.follows(old(self)@),
            r matches Ok(value) ==> is_data(value),
    {
        match decode(call) {
            Err(e) => Err(e),
            Ok(request) => {
                let r = self.apply(request);
                proof {
                    if old(self)@.coherent() {
                        lemma_served_follows(old(self)@, request@, self@, r);
                    }
                }
                r
            },
        }
    }
}

/// Which actors were made before a place does not change when an effect
/// comes on record behind it; and before the place behind the new effect
/// were made those made before, and the one that the new effect makes.
proof fn lemma_made_before_push(effects: Seq<EffectModel>, e: EffectModel, n: int, name: Seq<char>)
    requires
        0 <= n <= effects.len() + 1,
    ensures
        n <= effects.len() ==> (made_before(effects.push(e), n, name) <==> made_before(
            effects,
            n,
            name,
        )),
        n == effects.len() + 1 ==> (made_before(effects.push(e), n, name) <==> made_before(
            effects,
            effects.len() as int,
            name,
        ) || (e matches EffectModel::NewActor { name: made, .. } && made == name)),
{
    let longer = effects.push(e);
    if made_before(effects, if n <= effects.len() { n } else { effects.len() as int }, name) {
        let j = choose|j: int|
            0 <= j < n && j < effects.len() && (#[trigger] effects[j] matches EffectModel::NewActor {
                name: made,
                ..
            } && made == name);
        assert(longer[j] == effects[j]);
    }
    if n == effects.len() + 1 && (e matches EffectModel::NewActor { name: made, .. } && made
        == name) {
        assert(longer[effects.len() as int] == e);
    }
}

/// The `send`s among the effects, once one more effect is on record, are
/// those that were among them and the one that the new effect is.
proof fn lemma_sent_in_push(effects: Seq<EffectModel>, e: EffectModel, id: int)
    ensures
        sent_in(effects.push(e), id) <==> sent_in(effects, id) || (e matches EffectModel::Send {
            id: sent,
            ..
        } && sent == id),
{
    let longer = effects.push(e);
    if sent_in(effects, id) {
        let j = choose|j: int|
            0 <= j < effects.len() && (#[trigger] effects[j] matches EffectModel::Send {
                id: sent,
                ..
            } && sent == id);
        assert(longer[j] == effects[j]);
    }
    if e matches EffectModel::Send { id: sent, .. } && sent == id {
        assert(longer[effects.len() as int] == e);
    }
}

/// Serving a request keeps a coherent bridge coherent, and what comes out
/// follows what went in.
pub proof fn lemma_served_follows(
    before: BridgeModel,
    request: RequestModel,
    after: BridgeModel,
    answer: Result<ScriptValue, BridgeError>,
)
    requires
        before.coherent(),
        before.served(request, after, answer),
    ensures
        after.coherent(),
        after.follows(before),
{
    if after.effects != before.effects {
        let e = after.effects.last();
        let len = before.effects.len() as int;
        assert forall|name: Seq<char>|
            after.known.contains(name) <==> after.initial.contains(name) || made_before(
                after.effects,
                after.effects.len() as int,
                name,
            ) by {
            lemma_made_before_push(before.effects, e, len + 1, name);
        }
        assert forall|id: int|
            after.waiting.contains(id) <==> after.base.contains(id) || sent_in(
                after.effects,
                id,
            ) by {
            lemma_sent_in_push(before.effects, e, id);
        }
        assert forall|i: int| 0 <= i < after.effects.len() implies (
        #[trigger] after.effects[i] matches EffectModel::DoSend { recipient, .. }
            ==> after.initial.contains(recipient) || made_before(after.effects, i, recipient)) by {
            if let EffectModel::DoSend { recipient, .. } = after.effects[i] {
                lemma_made_before_push(before.effects, e, i, recipient);
            }
        }
    }
}

/// A request that the bridge refuses changes nothing.
pub proof fn lemma_refusal_changes_nothing(
    before: BridgeModel,
    request: RequestModel,
    after: BridgeModel,
    e: BridgeError,
)
    requires
        before.served(request, after, Err::<ScriptValue, BridgeError>(e)),
    ensures
        after == before,
{
}

/// A `do_send` to a name that is not known does nothing, and the script is
/// not told.
pub proof fn lemma_unknown_recipient_is_dropped(
    before: BridgeModel,
    recipient: Seq<char>,
    msg: MessageModel,
    after: BridgeModel,
    answer: Result<ScriptValue, BridgeError>,
)
    requires
        !before.known.contains(recipient),
        before.served(RequestModel::DoSend(recipient, msg), after, answer),
    ensures
        answer == Ok::<ScriptValue, BridgeError>(ScriptValue::Nil),
        after == before,
{
}

/// A `send` is taken whether or not its recipient is known: the script is
/// not told, the request goes on record, and the continuation waits.
pub proof fn lemma_send_needs_no_recipient(
    before: BridgeModel,
    recipient: Seq<char>,
    msg: MessageModel,
    id: int,
    after: BridgeModel,
    answer: Result<ScriptValue, BridgeError>,
)
    requires
        before.next_id <= id < i64::MAX,
        before.served(RequestModel::Send(recipient, msg, id), after, answer),
    ensures
        answer == Ok::<ScriptValue, BridgeError>(ScriptValue::Nil),
        after.waiting.contains(id),
        after.effects == before.effects.push(EffectModel::Send { recipient, msg, id }),
{
}

/// Every bridge follows itself.
pub proof fn lemma_follows_itself(a: BridgeModel)
    ensures
        a.follows(a),
{
}

/// Following goes through a bridge in between.
pub proof fn lemma_follows_through(a: BridgeModel, b: BridgeModel, c: BridgeModel)
    requires
        b.follows(a),
        c.follows(b),
    ensures
        c.follows(a),
{
}

} // verus!
