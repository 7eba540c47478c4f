use actix_lua::request::BridgeError;
use actix_lua::convert::ConversionError;
use actix_lua::driver::{conclude, marshal, refusal};
use actix_lua::registry::Continuations;
use actix_lua::{InvokeError, LuaMessage, ScriptValue};

fn book_with(ids: &[i64]) -> Continuations {
    let mut book = Continuations::new();
    for id in ids {
        assert!(book.enrol(*id));
    }
    book
}

#[test]
fn nothing_returned_is_nil() {
    let book = book_with(&[]);
    assert_eq!(conclude(&None, 1, &book).unwrap(), LuaMessage::Nil);
    assert_eq!(conclude(&Some(Vec::new()), 1, &book).unwrap(), LuaMessage::Nil);
}

#[test]
fn the_first_value_is_the_reply() {
    let book = book_with(&[2]);
    assert_eq!(conclude(&Some(vec![ScriptValue::Integer(2)]), 1, &book).unwrap(), LuaMessage::from(2));
    assert_eq!(
        conclude(&Some(vec![ScriptValue::text("done"), ScriptValue::Nil]), 1, &book).unwrap(),
        LuaMessage::from("done")
    );
    assert_eq!(
        conclude(&Some(vec![ScriptValue::text("done"), ScriptValue::text("2")]), 1, &book).unwrap(),
        LuaMessage::from("done")
    );
}

#[test]
fn an_identifier_in_second_place_is_a_suspension() {
    let returned = Some(vec![ScriptValue::Nil, ScriptValue::Integer(3)]);
    let book = book_with(&[3]);
    assert_eq!(conclude(&returned, 3, &book).unwrap(), LuaMessage::ThreadYield("3".to_string()));
    let book = book_with(&[1, 3, 7]);
    assert_eq!(conclude(&returned, 1, &book).unwrap(), LuaMessage::ThreadYield("3".to_string()));
}

#[test]
fn a_suspension_under_a_foreign_identifier_is_refused() {
    let returned = Some(vec![ScriptValue::Nil, ScriptValue::Integer(3)]);
    // taken before this invocation
    assert!(matches!(
        conclude(&returned, 4, &book_with(&[3, 5])),
        Err(InvokeError::UnknownContinuation(3))
    ));
    // never taken
    assert!(matches!(
        conclude(&returned, 1, &book_with(&[2])),
        Err(InvokeError::UnknownContinuation(3))
    ));
    assert!(matches!(
        conclude(&returned, 3, &book_with(&[])),
        Err(InvokeError::UnknownContinuation(3))
    ));
}

#[test]
fn a_suspension_under_an_identifier_that_no_send_took_is_refused() {
    let returned = Some(vec![ScriptValue::Nil, ScriptValue::Integer(2)]);
    let book = book_with(&[5]);
    assert!(matches!(conclude(&returned, 1, &book), Err(InvokeError::UnknownContinuation(2))));
    let mut struck = book_with(&[2]);
    assert!(struck.complete(2));
    assert!(matches!(conclude(&returned, 1, &struck), Err(InvokeError::UnknownContinuation(2))));
}

#[test]
fn a_reply_that_is_no_message_is_refused() {
    let book = book_with(&[]);
    assert!(matches!(
        conclude(&Some(vec![ScriptValue::Function]), 1, &book),
        Err(InvokeError::Reply(ConversionError::UnsupportedValue))
    ));
    assert!(matches!(
        conclude(&Some(vec![ScriptValue::String(vec![0x80])]), 1, &book),
        Err(InvokeError::Reply(ConversionError::InvalidUtf8))
    ));
}

#[test]
fn marshal_writes_every_argument() {
    let written = marshal(&vec![LuaMessage::from("handle"), LuaMessage::from(1)]).unwrap();
    assert_eq!(written.len(), 2);
    assert!(matches!(&written[0], ScriptValue::String(b) if b == b"handle"));
    assert!(matches!(&written[1], ScriptValue::Integer(1)));
    assert!(marshal(&Vec::new()).unwrap().is_empty());
}

#[test]
fn marshal_refuses_a_thread_yield() {
    let refused = marshal(&vec![LuaMessage::Nil, LuaMessage::ThreadYield("1".to_string())]);
    assert_eq!(refused.unwrap_err(), ConversionError::ThreadYield);
}

#[test]
fn every_refusal_has_its_words() {
    assert_eq!(refusal(BridgeError::UnknownOperation), "the host has no such operation");
    assert_eq!(
        refusal(BridgeError::BadArgument),
        "a recipient, a script or a delay is missing or of the wrong kind"
    );
    assert_eq!(
        refusal(BridgeError::Message(ConversionError::InvalidUtf8)),
        "the message cannot be read"
    );
    assert_eq!(refusal(BridgeError::Continuation), "the continuation identifier was taken before");
    assert_eq!(refusal(BridgeError::Exhausted), "no name is left");
}
