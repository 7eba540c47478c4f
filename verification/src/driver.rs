use crate::bridge::{lemma_refusal_changes_nothing, Bridge};
use crate::request::{argument, decoded, BridgeError};
use crate::convert::{lemma_mirror_is_data, marker_free, message_of, mirrors, ConversionError};
use crate::decimal::{decimal, decimal_string};
use crate::error::InvokeError;
use crate::message::{LuaMessage, MessageModel};
use crate::registry::Continuations;
use crate::value::{
    is_data, lemma_pair_is_data, nesting, pairs_are_data, pairs_nesting, ScriptValue,
};
use crate::vm::{
    call_function, coerced_text, entry_function, export_plain, new_table, next_pair, open_value,
    raise, table_set, values_of, Opened,
};
use vstd::prelude::*;

verus! {

broadcast use {
    vstd::std_specs::vec::axiom_vec_decreases_to_view,
    vstd::std_specs::vec::axiom_vec_index_decreases,
};

/// The refusal in words, as the script sees it.
pub open spec fn refusal_text(e: BridgeError) -> Seq<char> {
    match e {
        BridgeError::UnknownOperation => "the host has no such operation"@,
        BridgeError::BadArgument => "a recipient, a script or a delay is missing or of the wrong kind"@,
        BridgeError::Message(_) => "the message cannot be read"@,
        BridgeError::Continuation => "the continuation identifier was taken before"@,
        BridgeError::Exhausted => "no name is left"@,
    }
}

/// The refusal in words, as the script sees it.
pub fn refusal(e: BridgeError) -> (r: &'static str)
    ensures
        r@ == refusal_text(e),
{
    match e {
        BridgeError::UnknownOperation => "the host has no such operation",
        BridgeError::BadArgument => "a recipient, a script or a delay is missing or of the wrong kind",
        BridgeError::Message(_) => "the message cannot be read",
        BridgeError::Continuation => "the continuation identifier was taken before",
        BridgeError::Exhausted => "no name is left",
    }
}

/// How deep a table of the interpreter may be nested to be copied out.
///
/// A table that holds itself is nested without end, and copying it would
/// never come to an end; so there has to be a limit. This one is the
/// interpreter's own limit on nesting in the text of a program: no table
/// written out in a script is nested deeper.
pub const NESTING_LIMIT: u32 = 200;

/// Copies a value out of the interpreter, tables and all, as long as it is
/// nested no deeper than `depth`; one that is nested deeper is refused. What
/// the interpreter holds decides the rest.
///
/// A table is walked pair by pair, and a pair is copied before the next one
/// is asked for, so that only a few values of the interpreter are held at a
/// time, however large the table. A key that is a number with a fraction is
/// copied as the text that the interpreter writes it as.
fn import_within<'lua>(ctx: rlua::Context<'lua>, v: &rlua::Value<'lua>, depth: u32) -> (r: Result<
    ScriptValue,
    rlua::Error,
>)
    ensures
        r matches Ok(value) ==> nesting(value) <= depth,
    decreases depth,
{
    match open_value(v) {
        Opened::Plain(value) => Ok(value),
        Opened::Pairs(mut walk) => {
            if depth == 0 {
                return Err(raise("a table is nested too deeply"));
            }
            let mut pairs: Vec<(ScriptValue, ScriptValue)> = Vec::new();
            let mut left: usize = usize::MAX;
            while left > 0
                invariant
                    depth > 0,
                    pairs_nesting(pairs@) <= depth - 1,
                decreases left,
            {
                left = left - 1;
                let (native_key, native_value) = match next_pair(&mut walk) {
                    None => {
                        return Ok(ScriptValue::Table(pairs));
                    },
                    Some(Err(e)) => {
                        return Err(e);
                    },
                    Some(Ok(pair)) => pair,
                };
                let copied = import_within(ctx, &native_key, depth - 1)?;
                let key = match copied {
                    ScriptValue::Number(bits) => match coerced_text(ctx, &native_key)? {
                        Some(text) => ScriptValue::String(text),
                        None => ScriptValue::Number(bits),
                    },
                    _ => copied,
                };
                assert(nesting(key) <= depth - 1);
                let value = import_within(ctx, &native_value, depth - 1)?;
                let ghost before = pairs@;
                pairs.push((key, value));
                proof {
                    assert(pairs@.drop_last() == before);
                }
            }
            Err(raise("a table has more pairs than can be counted"))
        },
    }
}

/// Copies a value out of the interpreter, as long as it is nested no deeper
/// than the limit.
pub(crate) fn import_value<'lua>(ctx: rlua::Context<'lua>, v: &rlua::Value<'lua>) -> (r: Result<
    ScriptValue,
    rlua::Error,
>)
    ensures
        r matches Ok(value) ==> nesting(value) <= NESTING_LIMIT,
{
    import_within(ctx, v, NESTING_LIMIT)
}

/// Copies plain data into the interpreter, a table pair after pair.
pub(crate) fn export_value<'lua>(ctx: rlua::Context<'lua>, v: &ScriptValue) -> (r: Result<
    rlua::Value<'lua>,
    rlua::Error,
>)
    requires
        is_data(*v),
    decreases v,
{
    match v {
        ScriptValue::Table(pairs) => {
            let table = new_table(ctx)?;
            let mut i: usize = 0;
            while i < pairs.len()
                invariant
                    *v == ScriptValue::Table(*pairs),
                    i <= pairs.len(),
                    pairs_are_data(pairs@),
                decreases pairs.len() - i,
            {
                proof {
                    assert(decreases_to!(*v => v->Table_0));
                    lemma_pair_is_data(pairs@, i as int);
                }
                let key = export_value(ctx, &pairs[i].0)?;
                let value = export_value(ctx, &pairs[i].1)?;
                table_set(&table, key, value)?;
                i = i + 1;
            }
            Ok(table)
        },
        _ => export_plain(ctx, v),
    }
}

/// Copies values out of the interpreter, in their order: as many as there
/// are, each nested no deeper than the limit.
fn import_all<'lua>(ctx: rlua::Context<'lua>, natives: &Vec<rlua::Value<'lua>>) -> (r: Result<
    Vec<ScriptValue>,
    rlua::Error,
>)
    ensures
        r matches Ok(values) ==> {
            &&& values@.len() == natives@.len()
            &&& forall|i: int|
                0 <= i < values@.len() ==> nesting(#[trigger] values@[i]) <= NESTING_LIMIT
        },
{
    let mut values: Vec<ScriptValue> = Vec::new();
    let mut i: usize = 0;
    while i < natives.len()
        invariant
            i <= natives.len(),
            values@.len() == i,
            forall|j: int| 0 <= j < values@.len() ==> nesting(#[trigger] values@[j]) <= NESTING_LIMIT,
        decreases natives.len() - i,
    {
        values.push(import_value(ctx, &natives[i])?);
        i = i + 1;
    }
    Ok(values)
}

/// Copies plain data into the interpreter, in its order.
fn export_all<'lua>(ctx: rlua::Context<'lua>, values: &Vec<ScriptValue>) -> (r: Result<
    Vec<rlua::Value<'lua>>,
    rlua::Error,
>)
    requires
        forall|i: int| 0 <= i < values@.len() ==> is_data(#[trigger] values@[i]),
    ensures
        r matches Ok(natives) ==> natives@.len() == values@.len(),
{
    let mut natives: Vec<rlua::Value<'lua>> = Vec::new();
    let mut i: usize = 0;
    while i < values.len()
        invariant
            i <= values.len(),
            natives@.len() == i,
            forall|i: int| 0 <= i < values@.len() ==> is_data(#[trigger] values@[i]),
        decreases values.len() - i,
    {
        natives.push(export_value(ctx, &values[i])?);
        i = i + 1;
    }
    Ok(natives)
}

/// Answers one call that a running script makes to its host: reads the
/// call, lets the bridge serve it, and hands the answer back. A refusal is
/// raised as an error in the script.
///
/// The bridge serves one request at most. The script gets an answer only
/// where the bridge served a request and had an answer for it; where the
/// script gets an error, the bridge is as it was, or it has served a request
/// and only the handing back of the answer failed.
pub(crate) fn answer<'lua>(
    ctx: rlua::Context<'lua>,
    bridge: &mut Bridge,
    args: rlua::MultiValue<'lua>,
) -> (r: Result<rlua::Value<'lua>, rlua::Error>)
    requires
        old(bridge)@.coherent(),
    ensures
        final(bridge)@.coherent(),
        final(bridge)@.follows(old(bridge)@),
        r is Ok ==> final(bridge)@.answered_from(old(bridge)@),
        r is Err ==> final(bridge)@ == old(bridge)@ || final(bridge)@.answered_from(old(bridge)@),
{
    let natives = values_of(args);
    let call = import_all(ctx, &natives)?;
    match bridge.serve(&call) {
        Ok(reply) => {
            proof {
                let request = decoded(call@)->Ok_0;
                assert(old(bridge)@.served(request, bridge@, Ok::<ScriptValue, BridgeError>(reply)));
            }
            export_value(ctx, &reply)
        },
        Err(e) => {
            proof {
                if let Ok(request) = decoded(call@) {
                    lemma_refusal_changes_nothing(old(bridge)@, request, bridge@, e);
                }
            }
            Err(raise(refusal(e)))
        },
    }
}

/// Calls the entry point `entry`, which the interpreter keeps under `slot`,
/// with the values in `first` and then `args`, and gives what it returns,
/// each value nested no deeper than the limit; `None` where there is no
/// such entry point. Whether there is one, and what it returns, the
/// interpreter decides.
pub(crate) fn call_entry<'lua>(
    ctx: rlua::Context<'lua>,
    slot: &str,
    entry: &str,
    first: Vec<rlua::Value<'lua>>,
    args: &Vec<ScriptValue>,
) -> (r: Result<Option<Vec<ScriptValue>>, rlua::Error>)
    requires
        forall|i: int| 0 <= i < args@.len() ==> is_data(#[trigger] args@[i]),
    ensures
        r matches Ok(Some(values)) ==> forall|i: int|
            0 <= i < values@.len() ==> nesting(#[trigger] values@[i]) <= NESTING_LIMIT,
{
    match entry_function(ctx, slot, entry) {
        None => Ok(None),
        Some(f) => {
            let mut natives = first;
            let mut rest = export_all(ctx, args)?;
            natives.append(&mut rest);
            let results = call_function(&f, natives)?;
            Ok(Some(import_all(ctx, &results)?))
        },
    }
}

/// Reads what an entry point returned.
///
/// Where the second value is an integer, the script has suspended and the
/// integer names its continuation: it must be one that was taken during
/// this invocation, `first` or above, and that waits. Otherwise the first
/// value is the reply; nothing at all is `Nil`.
pub open spec fn concluded(returned: Option<Seq<ScriptValue>>, first: int, waiting: Set<int>) -> Result<
    MessageModel,
    Refusal,
> {
    match returned {
        None => Ok(MessageModel::Nil),
        Some(values) => match argument(values, 1) {
            ScriptValue::Integer(id) => if first <= id && waiting.contains(id as int) {
                Ok(MessageModel::ThreadYield(decimal(id as int)))
            } else {
                Err(Refusal::UnknownContinuation(id as int))
            },
            _ => match message_of(argument(values, 0)) {
                Ok(model) => Ok(model),
                Err(e) => Err(Refusal::Reply(e)),
            },
        },
    }
}

/// Why what an entry point returned is no reply.
pub enum Refusal {
    Reply(ConversionError),
    UnknownContinuation(int),
}

/// Reads what an entry point returned; `first` is the least identifier that
/// the invocation could take, and `book` holds the continuations that wait
/// now that it is over.
pub fn conclude(returned: &Option<Vec<ScriptValue>>, first: i64, book: &Continuations) -> (r: Result<
    LuaMessage,
    InvokeError,
>)
    ensures
        match concluded(
            match returned {
                Some(values) => Some(values@),
                None => None,
            },
            first as int,
            book.waiting(),
        ) {
            Ok(model) => r matches Ok(reply) && reply@ == model,
            Err(Refusal::Reply(e)) => r matches Err(InvokeError::Reply(f)) && f == e,
            Err(Refusal::UnknownContinuation(id)) => r matches Err(
                InvokeError::UnknownContinuation(i),
            ) && i == id,
        },
{
    match returned {
        None => Ok(LuaMessage::Nil),
        Some(values) => {
            if values.len() > 1 {
                match &values[1] {
                    ScriptValue::Integer(id) => {
                        if first <= *id && book.is_waiting(*id) {
                            return Ok(LuaMessage::ThreadYield(decimal_string(*id)));
                        } else {
                            return Err(InvokeError::UnknownContinuation(*id));
                        }
                    },
                    _ => {},
                }
            }
            if values.len() > 0 {
                match LuaMessage::from_lua(&values[0]) {
                    Ok(reply) => Ok(reply),
                    Err(e) => Err(InvokeError::Reply(e)),
                }
            } else {
                Ok(LuaMessage::Nil)
            }
        },
    }
}

/// Writes the arguments of an invocation out for the interpreter.
pub fn marshal(args: &Vec<LuaMessage>) -> (r: Result<Vec<ScriptValue>, ConversionError>)
    ensures
        match r {
            Ok(values) => {
                &&& values@.len() == args@.len()
                &&& forall|i: int| 0 <= i < args@.len() ==> marker_free(#[trigger] args@[i])
                &&& forall|i: int| 0 <= i < args@.len() ==> mirrors(values@[i], #[trigger] args@[i])
                &&& forall|i: int| 0 <= i < values@.len() ==> is_data(#[trigger] values@[i])
            },
            Err(e) => e == ConversionError::ThreadYield && exists|i: int|
                0 <= i < args@.len() && !marker_free(#[trigger] args@[i]),
        },
{
    let mut values: Vec<ScriptValue> = Vec::new();
    let mut i: usize = 0;
    while i < args.len()
        invariant
            i <= args.len(),
            values@.len() == i,
            forall|j: int| 0 <= j < i ==> marker_free(#[trigger] args@[j]),
            forall|j: int| 0 <= j < i ==> mirrors(values@[j], #[trigger] args@[j]),
            forall|j: int| 0 <= j < i ==> is_data(#[trigger] values@[j]),
        decreases args.len() - i,
    {
        match args[i].to_lua() {
            Err(e) => {
                return Err(e);
            },
            Ok(value) => {
                proof {
                    lemma_mirror_is_data(value, args@[i as int]);
                }
                values.push(value);
            },
        }
        i = i + 1;
    }
    Ok(values)
}

} // verus!
