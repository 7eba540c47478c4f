use crate::message::{LuaMessage, MessageModel};
use vstd::prelude::*;

verus! {

/// A request for a reply that a script has made: who is asked, what is
/// asked, and which continuation takes the reply.
#[derive(Debug)]
pub struct SendAttempt {
    pub recipient_name: String,
    pub msg: LuaMessage,
    pub cb_thread_id: i64,
}

/// The reply to a `SendAttempt`, on its way to the continuation.
#[derive(Debug)]
pub struct SendAttemptResult {
    pub msg: LuaMessage,
    pub cb_thread_id: i64,
}

/// What a script asks its host to do. The host carries the effects of one
/// invocation out in the order in which the script asked for them.
#[derive(Debug)]
pub enum Effect {
    /// Put the message into this actor's own mailbox.
    Notify(LuaMessage),
    /// Put the message into this actor's own mailbox after so many seconds.
    NotifyLater(LuaMessage, u64),
    /// Deliver the message to the named recipient and forget about it.
    DoSend { recipient: String, msg: LuaMessage },
    /// Ask the named recipient and resume the continuation with its reply.
    Send(SendAttempt),
    /// Shut this actor down.
    Terminate,
    /// Make an actor of the script, start it, and register it under the name.
    NewActor { name: String, script: String },
}

/// What an effect says.
pub enum EffectModel {
    Notify(MessageModel),
    NotifyLater(MessageModel, int),
    DoSend { recipient: Seq<char>, msg: MessageModel },
    Send { recipient: Seq<char>, msg: MessageModel, id: int },
    Terminate,
    NewActor { name: Seq<char>, script: Seq<char> },
}

impl View for Effect {
    type V = EffectModel;

    open spec fn view(&self) -> EffectModel {
        match *self {
            Effect::Notify(msg) => EffectModel::Notify(msg@),
            Effect::NotifyLater(msg, seconds) => EffectModel::NotifyLater(msg@, seconds as int),
            Effect::DoSend { recipient, msg } => EffectModel::DoSend {
                recipient: recipient@,
                msg: msg@,
            },
            Effect::Send(attempt) => EffectModel::Send {
                recipient: attempt.recipient_name@,
                msg: attempt.msg@,
                id: attempt.cb_thread_id as int,
            },
            Effect::Terminate => EffectModel::Terminate,
            Effect::NewActor { name, script } => EffectModel::NewActor {
                name: name@,
                script: script@,
            },
        }
    }
}

/// What a list of effects says, one by one.
pub open spec fn effects_model(effects: Seq<Effect>) -> Seq<EffectModel> {
    Seq::new(effects.len(), |i: int| effects[i]@)
}

/// Whether one of the first `n` effects makes an actor of that name.
pub open spec fn made_before(effects: Seq<EffectModel>, n: int, name: Seq<char>) -> bool {
    exists|j: int|
        0 <= j < n && j < effects.len() && (#[trigger] effects[j] matches EffectModel::NewActor {
            name: made,
            ..
        } && made == name)
}

/// Whether one of the effects is a `send` under that identifier.
pub open spec fn sent_in(effects: Seq<EffectModel>, id: int) -> bool {
    exists|j: int|
        0 <= j < effects.len() && (#[trigger] effects[j] matches EffectModel::Send { id: sent, .. }
            && sent == id)
}

} // verus!
