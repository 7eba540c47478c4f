use crate::convert::{key_text, message_of, read_key, text_of_bytes, ConversionError};
use crate::message::{LuaMessage, MessageModel};
use crate::value::ScriptValue;
use vstd::prelude::*;
use vstd::utf8::{decode_utf8, valid_utf8};

verus! {

/// The six things a script can ask of its host.
#[derive(Debug, Clone, Copy, PartialEq, Eq, Structural)]
pub enum Operation {
    Notify,
    NotifyLater,
    DoSend,
    Send,
    Terminate,
    NewActor,
}

/// Why the host refused what a script asked. The script sees it as an error
/// raised where it asked.
#[derive(Debug, Clone, Copy, PartialEq, Eq, Structural)]
pub enum BridgeError {
    /// The first value names none of the six operations.
    UnknownOperation,
    /// A recipient, a script or a delay is missing or of the wrong kind.
    BadArgument,
    /// The message cannot be read.
    Message(ConversionError),
    /// The continuation identifier is not above those that were taken
    /// before.
    Continuation,
    /// No name for a new actor is left.
    Exhausted,
}

/// What a script asks, once read.
#[derive(Debug)]
pub enum Request {
    Notify(LuaMessage),
    NotifyLater(LuaMessage, u64),
    DoSend(String, LuaMessage),
    Send(String, LuaMessage, i64),
    Terminate,
    NewActor(String, Option<String>),
}

/// What a request says.
pub enum RequestModel {
    Notify(MessageModel),
    NotifyLater(MessageModel, int),
    DoSend(Seq<char>, MessageModel),
    Send(Seq<char>, MessageModel, int),
    Terminate,
    NewActor(Seq<char>, Option<Seq<char>>),
}

impl View for Request {
    type V = RequestModel;

    open spec fn view(&self) -> RequestModel {
        match *self {
            Request::Notify(msg) => RequestModel::Notify(msg@),
            Request::NotifyLater(msg, seconds) => RequestModel::NotifyLater(msg@, seconds as int),
            Request::DoSend(recipient, msg) => RequestModel::DoSend(recipient@, msg@),
            Request::Send(recipient, msg, id) => RequestModel::Send(recipient@, msg@, id as int),
            Request::Terminate => RequestModel::Terminate,
            Request::NewActor(script, name) => RequestModel::NewActor(
                script@,
                match name {
                    Some(name) => Some(name@),
                    None => None,
                },
            ),
        }
    }
}

/// The value at place `i` of a call, `Nil` where the script gave none.
pub open spec fn argument(call: Seq<ScriptValue>, i: int) -> ScriptValue {
    if 0 <= i < call.len() {
        call[i]
    } else {
        ScriptValue::Nil
    }
}

/// The operation that the text `name` stands for.
pub open spec fn operation_named(name: Seq<char>) -> Option<Operation> {
    if name == "notify"@ {
        Some(Operation::Notify)
    } else if name == "notify_later"@ {
        Some(Operation::NotifyLater)
    } else if name == "do_send"@ {
        Some(Operation::DoSend)
    } else if name == "send"@ {
        Some(Operation::Send)
    } else if name == "terminate"@ {
        Some(Operation::Terminate)
    } else if name == "new_actor"@ {
        Some(Operation::NewActor)
    } else {
        None
    }
}

/// The operation that a script names with the value `v`.
pub open spec fn operation_of(v: ScriptValue) -> Option<Operation> {
    match v {
        ScriptValue::String(bytes) => if valid_utf8(bytes@) {
            operation_named(decode_utf8(bytes@))
        } else {
            None
        },
        _ => None,
    }
}

/// What a call says: its first value names the operation, the others are
/// its arguments, missing ones being `Nil` and surplus ones ignored.
pub open spec fn decoded(call: Seq<ScriptValue>) -> Result<RequestModel, BridgeError> {
    match operation_of(argument(call, 0)) {
        None => Err(BridgeError::UnknownOperation),
        Some(Operation::Notify) => match message_of(argument(call, 1)) {
            Err(e) => Err(BridgeError::Message(e)),
            Ok(msg) => Ok(RequestModel::Notify(msg)),
        },
        Some(Operation::NotifyLater) => match message_of(argument(call, 1)) {
            Err(e) => Err(BridgeError::Message(e)),
            Ok(msg) => match argument(call, 2) {
                ScriptValue::Integer(seconds) => if seconds >= 0 {
                    Ok(RequestModel::NotifyLater(msg, seconds as int))
                } else {
                    Err(BridgeError::BadArgument)
                },
                _ => Err(BridgeError::BadArgument),
            },
        },
        Some(Operation::DoSend) => match key_text(argument(call, 1)) {
            Err(_) => Err(BridgeError::BadArgument),
            Ok(recipient) => match message_of(argument(call, 2)) {
                Err(e) => Err(BridgeError::Message(e)),
                Ok(msg) => Ok(RequestModel::DoSend(recipient, msg)),
            },
        },
        Some(Operation::Send) => match key_text(argument(call, 1)) {
            Err(_) => Err(BridgeError::BadArgument),
            Ok(recipient) => match message_of(argument(call, 2)) {
                Err(e) => Err(BridgeError::Message(e)),
                Ok(msg) => match argument(call, 3) {
                    ScriptValue::Integer(id) => Ok(RequestModel::Send(recipient, msg, id as int)),
                    _ => Err(BridgeError::BadArgument),
                },
            },
        },
        Some(Operation::Terminate) => Ok(RequestModel::Terminate),
        Some(Operation::NewActor) => match argument(call, 1) {
            ScriptValue::String(bytes) => if valid_utf8(bytes@) {
                match argument(call, 2) {
                    ScriptValue::Nil => Ok(RequestModel::NewActor(decode_utf8(bytes@), None)),
                    name => match key_text(name) {
                        Err(_) => Err(BridgeError::BadArgument),
                        Ok(name) => Ok(RequestModel::NewActor(decode_utf8(bytes@), Some(name))),
                    },
                }
            } else {
                Err(BridgeError::BadArgument)
            },
            _ => Err(BridgeError::BadArgument),
        },
    }
}

/// The operation that a script names with `v`.
fn operation(v: &ScriptValue) -> (r: Option<Operation>)
    ensures
        r == operation_of(*v),
{
    match v {
        ScriptValue::String(bytes) => match text_of_bytes(bytes.clone()) {
            None => None,
            Some(name) => {
                if name == "notify".to_owned() {
                    Some(Operation::Notify)
                } else if name == "notify_later".to_owned() {
                    Some(Operation::NotifyLater)
                } else if name == "do_send".to_owned() {
                    Some(Operation::DoSend)
                } else if name == "send".to_owned() {
                    Some(Operation::Send)
                } else if name == "terminate".to_owned() {
                    Some(Operation::Terminate)
                } else if name == "new_actor".to_owned() {
                    Some(Operation::NewActor)
                } else {
                    None
                }
            },
        },
        _ => None,
    }
}

/// Reads the message at place `i` of a call.
fn message_at(call: &Vec<ScriptValue>, i: usize) -> (r: Result<LuaMessage, ConversionError>)
    ensures
        match message_of(argument(call@, i as int)) {
            Ok(model) => r matches Ok(m) && m@ == model,
            Err(e) => r == Err::<LuaMessage, ConversionError>(e),
        },
{
    if i < call.len() {
        LuaMessage::from_lua(&call[i])
    } else {
        Ok(LuaMessage::Nil)
    }
}

/// Reads the name at place `i` of a call.
fn name_at(call: &Vec<ScriptValue>, i: usize) -> (r: Result<String, ConversionError>)
    ensures
        match key_text(argument(call@, i as int)) {
            Ok(text) => r matches Ok(s) && s@ == text,
            Err(e) => r == Err::<String, ConversionError>(e),
        },
{
    if i < call.len() {
        read_key(&call[i])
    } else {
        Err(ConversionError::UnsupportedKey)
    }
}

/// Reads what a script asks.
pub fn decode(call: &Vec<ScriptValue>) -> (r: Result<Request, BridgeError>)
    ensures
        match decoded(call@) {
            Ok(model) => r matches Ok(request) && request@ == model,
            Err(e) => r matches Err(f) && f == e,
        },
{
    if call.len() == 0 {
        return Err(BridgeError::UnknownOperation);
    }
    let op = match operation(&call[0]) {
        None => {
            return Err(BridgeError::UnknownOperation);
        },
        Some(op) => op,
    };
    match op {
        Operation::Notify => match message_at(call, 1) {
            Err(e) => Err(BridgeError::Message(e)),
            Ok(msg) => Ok(Request::Notify(msg)),
        },
        Operation::NotifyLater => match message_at(call, 1) {
            Err(e) => Err(BridgeError::Message(e)),
            Ok(msg) => {
                if call.len() <= 2 {
                    return Err(BridgeError::BadArgument);
                }
                match &call[2] {
                    ScriptValue::Integer(seconds) => {
                        if *seconds >= 0 {
                            Ok(Request::NotifyLater(msg, *seconds as u64))
                        } else {
                            Err(BridgeError::BadArgument)
                        }
                    },
                    _ => Err(BridgeError::BadArgument),
                }
            },
        },
        Operation::DoSend => match name_at(call, 1) {
            Err(_) => Err(BridgeError::BadArgument),
            Ok(recipient) => match message_at(call, 2) {
                Err(e) => Err(BridgeError::Message(e)),
                Ok(msg) => Ok(Request::DoSend(recipient, msg)),
            },
        },
        Operation::Send => match name_at(call, 1) {
            Err(_) => Err(BridgeError::BadArgument),
            Ok(recipient) => match message_at(call, 2) {
                Err(e) => Err(BridgeError::Message(e)),
                Ok(msg) => {
                    if call.len() <= 3 {
                        return Err(BridgeError::BadArgument);
                    }
                    match &call[3] {
                        ScriptValue::Integer(id) => Ok(Request::Send(recipient, msg, *id)),
                        _ => Err(BridgeError::BadArgument),
                    }
                },
            },
        },
        Operation::Terminate => Ok(Request::Terminate),
        Operation::NewActor => {
            if call.len() <= 1 {
                return Err(BridgeError::BadArgument);
            }
            let script = match &call[1] {
                ScriptValue::String(bytes) => match text_of_bytes(bytes.clone()) {
                    None => {
                        return Err(BridgeError::BadArgument);
                    },
                    Some(script) => script,
                },
                _ => {
                    return Err(BridgeError::BadArgument);
                },
            };
            if call.len() <= 2 {
                return Ok(Request::NewActor(script, None));
            }
            match &call[2] {
                ScriptValue::Nil => Ok(Request::NewActor(script, None)),
                _ => match read_key(&call[2]) {
                    Err(_) => Err(BridgeError::BadArgument),
                    Ok(name) => Ok(Request::NewActor(script, Some(name))),
                },
            }
        },
    }
}

} // verus!
