use crate::bridge::Bridge;
use crate::driver::{answer, call_entry};
use crate::error::LuaError;
use crate::value::{is_data, ScriptValue};
use rlua::Value;
use vstd::prelude::*;

verus! {

/// The interpreter.
#[verifier::external_type_specification]
#[verifier::external_body]
pub struct ExLua(rlua::Lua);

/// The interpreter, for the length of one call into it.
#[verifier::external_type_specification]
#[verifier::external_body]
pub struct ExContext<'lua>(rlua::Context<'lua>);

/// A value inside the interpreter.
#[verifier::external_type_specification]
#[verifier::external_body]
pub struct ExValue<'lua>(rlua::Value<'lua>);

/// Several values inside the interpreter, as a function takes or returns
/// them.
#[verifier::external_type_specification]
#[verifier::external_body]
pub struct ExMultiValue<'lua>(rlua::MultiValue<'lua>);

/// A function inside the interpreter.
#[verifier::external_type_specification]
#[verifier::external_body]
pub struct ExFunction<'lua>(rlua::Function<'lua>);

/// The walk over the pairs of a table inside the interpreter.
#[verifier::external_type_specification]
#[verifier::external_body]
#[verifier::reject_recursive_types(K)]
#[verifier::reject_recursive_types(V)]
pub struct ExTablePairs<'lua, K, V>(rlua::TablePairs<'lua, K, V>);

/// The interpreter's error.
#[verifier::external_type_specification]
#[verifier::external_body]
pub struct ExError(rlua::Error);

/// `Lua::new`: a fresh interpreter with its standard library.
#[verifier::external_body]
pub(crate) fn new_vm() -> rlua::Lua {
    rlua::Lua::new()
}

/// `Context::load`, `Chunk::set_name`, `Chunk::call` and
/// `Context::set_named_registry_value` inside `Lua::context`: compiles
/// `source` under `name`, runs it, and keeps what it returns in the
/// interpreter's registry under `slot`, where no script reaches it. Nothing is
/// claimed of the outcome.
#[verifier::external_body]
pub(crate) fn install(vm: &rlua::Lua, source: &str, name: &str, slot: &str) -> (r: Result<
    (),
    rlua::Error,
>) {
    vm.context(|ctx| {
        let made: Value = ctx.load(source).set_name(name)?.call(())?;
        ctx.set_named_registry_value(slot, made)
    })
}

/// `Lua::context`: runs `call_entry` on the interpreter, with no value of
/// the host put first. Nothing is claimed of the outcome.
#[verifier::external_body]
pub(crate) fn in_context(vm: &rlua::Lua, slot: &str, entry: &str, args: &Vec<ScriptValue>) -> (r:
    Result<Option<Vec<ScriptValue>>, rlua::Error>)
    requires
        forall|i: int| 0 <= i < args@.len() ==> is_data(#[trigger] args@[i]),
{
    vm.context(|ctx| call_entry(ctx, slot, entry, Vec::new(), args))
}

/// `Context::scope` and `Scope::create_function_mut` inside `Lua::context`:
/// makes a function of the interpreter that hands each of its calls to
/// `answer`, runs `call_entry` with that function put first among the
/// arguments, and lets the function expire.
///
/// The bridge is changed by `answer` alone, any number of times; as each
/// `answer` keeps it coherent and leaves it following what it was, so does
/// the whole. Nothing is claimed of the outcome.
///
/// The interpreter holds every value of one call of the function at once
/// and has room for some hundred thousand. The function goes to an entry
/// point of the prelude and to nobody else, and the prelude calls it with
/// four values at most, whatever a script hands to its `ctx`.
#[verifier::external_body]
pub(crate) fn with_bridge(
    vm: &rlua::Lua,
    bridge: &mut Bridge,
    slot: &str,
    entry: &str,
    args: &Vec<ScriptValue>,
) -> (r: Result<Option<Vec<ScriptValue>>, rlua::Error>)
    requires
        old(bridge)@.coherent(),
        forall|i: int| 0 <= i < args@.len() ==> is_data(#[trigger] args@[i]),
    ensures
        final(bridge)@.coherent(),
        final(bridge)@.follows(old(bridge)@),
{
    vm.context(|ctx| ctx.scope(|scope| {
        let serve = scope.create_function_mut(|c, a| answer(c, bridge, a))?;
        call_entry(ctx, slot, entry, vec![Value::Function(serve)], args)
    }))
}

/// `Context::named_registry_value` and `Table::get`: the function of that
/// name in the table that the registry keeps under `slot`, if there is one.
#[verifier::external_body]
pub(crate) fn entry_function<'lua>(ctx: rlua::Context<'lua>, slot: &str, name: &str) -> (r: Option<
    rlua::Function<'lua>,
>) {
    ctx.named_registry_value::<_, rlua::Table>(slot).and_then(|kept| kept.get(name)).ok()
}

/// `Function::call`: calls the function with the values and gives all that
/// it returns. Nothing is claimed of the outcome; a script that does not end
/// does not return. The interpreter holds every value that comes back at
/// once and has room for some hundred thousand: the functions that the
/// driver calls are those of the prelude, which return two at most.
#[verifier::external_body]
pub(crate) fn call_function<'lua>(f: &rlua::Function<'lua>, args: Vec<Value<'lua>>) -> (r:
    Result<Vec<Value<'lua>>, rlua::Error>) {
    f.call::<_, rlua::MultiValue>(rlua::MultiValue::from_vec(args)).map(|all| all.into_vec())
}

/// `MultiValue::into_vec`: the values in their order.
#[verifier::external_body]
pub(crate) fn values_of<'lua>(all: rlua::MultiValue<'lua>) -> (r: Vec<Value<'lua>>) {
    all.into_vec()
}

/// What `open_value` makes of a value of the interpreter: the copy of a
/// value that is no table, or the walk over the pairs of a table.
pub enum Opened<'lua> {
    Plain(ScriptValue),
    Pairs(rlua::TablePairs<'lua, Value<'lua>, Value<'lua>>),
}

/// Copies a value that is no table out of the interpreter, kind for kind, a
/// string by `String::as_bytes`; of a function, a coroutine, a userdata or an
/// error object nothing but the kind. For a table, `Table::pairs`: the walk
/// over its pairs, not begun. So what is copied is never a table; nothing
/// else is claimed of it.
#[verifier::external_body]
pub(crate) fn open_value<'lua>(v: &Value<'lua>) -> (r: Opened<'lua>)
    ensures
        r matches Opened::Plain(value) ==> !(value is Table),
{
    Opened::Plain(match v {
        Value::Nil => ScriptValue::Nil,
        Value::Boolean(b) => ScriptValue::Boolean(*b),
        Value::Integer(i) => ScriptValue::Integer(*i),
        Value::Number(n) => ScriptValue::Number(n.to_bits()),
        Value::String(s) => ScriptValue::String(s.as_bytes().to_vec()),
        Value::Table(t) => return Opened::Pairs(t.clone().pairs()),
        Value::Function(_) => ScriptValue::Function,
        Value::Thread(_) => ScriptValue::Thread,
        Value::UserData(_) => ScriptValue::UserData,
        Value::LightUserData(_) => ScriptValue::LightUserData,
        Value::Error(_) => ScriptValue::Error,
    })
}

/// `Iterator::next` on `TablePairs`: the next pair of the table in the order
/// in which the interpreter walks it, `None` when the walk is over. The pair
/// before it is no longer held. Nothing is claimed of the outcome.
#[verifier::external_body]
pub(crate) fn next_pair<'lua>(walk: &mut rlua::TablePairs<'lua, Value<'lua>, Value<'lua>>) -> (r:
    Option<Result<(Value<'lua>, Value<'lua>), rlua::Error>>) {
    walk.next()
}

/// `Context::coerce_string` and `String::as_bytes`: the text that the
/// interpreter writes the value as, where it is a string or a number, and
/// nothing else. Nothing is claimed of the text: how a number is written is
/// up to the interpreter and its locale.
#[verifier::external_body]
pub(crate) fn coerced_text<'lua>(ctx: rlua::Context<'lua>, v: &Value<'lua>) -> (r: Result<
    Option<Vec<u8>>,
    rlua::Error,
>) {
    ctx.coerce_string(v.clone()).map(|text| text.map(|s| s.as_bytes().to_vec()))
}

/// Copies plain data that is no table into the interpreter, kind for kind; a
/// string by `Context::create_string`.
#[verifier::external_body]
pub(crate) fn export_plain<'lua>(ctx: rlua::Context<'lua>, v: &ScriptValue) -> (r: Result<
    Value<'lua>,
    rlua::Error,
>)
    requires
        is_data(*v),
        !(v is Table),
{
    Ok(match v {
        ScriptValue::Boolean(b) => Value::Boolean(*b),
        ScriptValue::Integer(i) => Value::Integer(*i),
        ScriptValue::Number(bits) => Value::Number(rlua::Number::from_bits(*bits)),
        ScriptValue::String(bytes) => Value::String(ctx.create_string(bytes)?),
        _ => Value::Nil,
    })
}

/// `Context::create_table`: a new, empty table, as a value.
#[verifier::external_body]
pub(crate) fn new_table<'lua>(ctx: rlua::Context<'lua>) -> (r: Result<Value<'lua>, rlua::Error>) {
    ctx.create_table().map(Value::Table)
}

/// `Table::raw_set`: sets `key` to `value` in the table; does nothing to a
/// value that is no table.
#[verifier::external_body]
pub(crate) fn table_set<'lua>(table: &Value<'lua>, key: Value<'lua>, value: Value<'lua>) -> (r:
    Result<(), rlua::Error>) {
    match table {
        Value::Table(t) => t.raw_set(key, value),
        _ => Ok(()),
    }
}

/// `Error::RuntimeError`: the error that a script sees raised.
#[verifier::external_body]
pub(crate) fn raise(message: &str) -> (r: rlua::Error) {
    rlua::Error::RuntimeError(message.to_string())
}

/// Tells the interpreter's errors apart and moves their words over; an error
/// of any other kind is put into words by its `Display`.
#[verifier::external_body]
pub(crate) fn lua_error(e: rlua::Error) -> (r: LuaError) {
    match e {
        rlua::Error::RuntimeError(message) => LuaError::RuntimeError(message),
        rlua::Error::MemoryError(message) => LuaError::MemoryError(message),
        rlua::Error::CallbackError { traceback, cause } => {
            LuaError::CallbackError { traceback, cause: cause.to_string() }
        },
        other => LuaError::Other(other.to_string()),
    }
}

} // verus!
