use actix_lua::convert::ConversionError;
use actix_lua::{LuaMessage, ScriptValue};
use std::mem::discriminant;

fn entry(key: &str, value: LuaMessage) -> (String, LuaMessage) {
    (key.to_string(), value)
}

#[test]
fn constructors() {
    assert_eq!(LuaMessage::from(42), LuaMessage::Integer(42));
    assert_eq!(LuaMessage::from(0), LuaMessage::Integer(0));
    assert_eq!(
        LuaMessage::from("foo"),
        LuaMessage::String("foo".to_string())
    );
    assert_eq!(LuaMessage::number(42.5f64.to_bits()), LuaMessage::Number(42.5f64.to_bits()));
    assert_eq!(LuaMessage::number(42.5f64.to_bits()), LuaMessage::Number(0x4045_4000_0000_0000));
    assert_eq!(LuaMessage::from(true), LuaMessage::Boolean(true));

    let mut t = Vec::new();
    t.push(("bar".to_string(), LuaMessage::from("abc")));
    let mut t2 = Vec::new();
    t2.push(("bar".to_string(), LuaMessage::from("abc")));
    assert_eq!(LuaMessage::from(t), LuaMessage::Table(t2));
}

#[test]
fn to_lua() {
    // we only check if they have the correct variant
    assert_eq!(
        discriminant(&LuaMessage::Integer(42).to_lua().unwrap()),
        discriminant(&ScriptValue::Integer(42))
    );
    assert_eq!(
        discriminant(&LuaMessage::String("foo".to_string()).to_lua().unwrap()),
        discriminant(&ScriptValue::text("foo"))
    );
    assert_eq!(
        discriminant(&LuaMessage::Number(42.5f64.to_bits()).to_lua().unwrap()),
        discriminant(&ScriptValue::Number(42.5f64.to_bits()))
    );
    assert_eq!(
        discriminant(&LuaMessage::Boolean(true).to_lua().unwrap()),
        discriminant(&ScriptValue::Boolean(true))
    );
    assert_eq!(
        discriminant(&LuaMessage::Nil.to_lua().unwrap()),
        discriminant(&ScriptValue::Nil)
    );

    let mut t = Vec::new();
    t.push(("bar".to_string(), LuaMessage::from("abc")));
    assert_eq!(
        discriminant(&LuaMessage::Table(t).to_lua().unwrap()),
        discriminant(&ScriptValue::Table(Vec::new()))
    );
}

#[test]
fn from_lua() {
    // we only check if they have the correct variant
    assert_eq!(
        discriminant(&LuaMessage::from_lua(&ScriptValue::Integer(42)).unwrap()),
        discriminant(&LuaMessage::Integer(42))
    );
    assert_eq!(
        discriminant(&LuaMessage::from_lua(&ScriptValue::Number(42.5f64.to_bits())).unwrap()),
        discriminant(&LuaMessage::Number(42.5f64.to_bits()))
    );
    assert_eq!(
        discriminant(&LuaMessage::from_lua(&ScriptValue::text("foo")).unwrap()),
        discriminant(&LuaMessage::String("foo".to_string()))
    );
    assert_eq!(
        discriminant(&LuaMessage::from_lua(&ScriptValue::Boolean(true)).unwrap()),
        discriminant(&LuaMessage::Boolean(true))
    );
    assert_eq!(
        discriminant(&LuaMessage::from_lua(&ScriptValue::Nil).unwrap()),
        discriminant(&LuaMessage::Nil)
    );

    let mut t = Vec::new();
    t.push(("bar".to_string(), LuaMessage::from("abc")));
    assert_eq!(
        discriminant(&LuaMessage::from_lua(&ScriptValue::Table(Vec::new())).unwrap()),
        discriminant(&LuaMessage::Table(t))
    );
}

#[test]
fn integer_constructors_keep_the_value() {
    assert_eq!(LuaMessage::from(-8i8), LuaMessage::Integer(-8));
    assert_eq!(LuaMessage::from(200u8), LuaMessage::Integer(200));
    assert_eq!(LuaMessage::from(-3000i16), LuaMessage::Integer(-3000));
    assert_eq!(LuaMessage::from(60000u16), LuaMessage::Integer(60000));
    assert_eq!(LuaMessage::from(i32::MIN), LuaMessage::Integer(-2147483648));
    assert_eq!(LuaMessage::from(u32::MAX), LuaMessage::Integer(4294967295));
    assert_eq!(LuaMessage::from(i64::MAX), LuaMessage::Integer(9223372036854775807));
    assert_eq!(LuaMessage::from(7usize), LuaMessage::Integer(7));
    assert_eq!(LuaMessage::from(-7isize), LuaMessage::Integer(-7));
    assert_eq!(LuaMessage::from("x".to_string()), LuaMessage::String("x".to_string()));
}

#[test]
fn a_size_above_the_largest_integer_wraps() {
    assert_eq!(LuaMessage::from(usize::MAX), LuaMessage::Integer(-1));
}

#[test]
fn to_lua_writes_each_kind_as_itself() {
    match LuaMessage::from("héllo").to_lua().unwrap() {
        ScriptValue::String(bytes) => assert_eq!(bytes, "héllo".as_bytes().to_vec()),
        other => panic!("{:?}", other),
    }
    assert!(matches!(LuaMessage::Integer(-9).to_lua().unwrap(), ScriptValue::Integer(-9)));
    assert!(matches!(LuaMessage::Number(77).to_lua().unwrap(), ScriptValue::Number(77)));
    assert!(matches!(LuaMessage::Boolean(false).to_lua().unwrap(), ScriptValue::Boolean(false)));
    assert!(matches!(LuaMessage::Nil.to_lua().unwrap(), ScriptValue::Nil));
}

#[test]
fn to_lua_writes_a_table_entry_by_entry() {
    let table = LuaMessage::Table(vec![
        entry("b", LuaMessage::from(2)),
        entry("a", LuaMessage::from("one")),
    ]);
    match table.to_lua().unwrap() {
        ScriptValue::Table(pairs) => {
            assert_eq!(pairs.len(), 2);
            assert!(matches!(&pairs[0], (ScriptValue::String(k), ScriptValue::Integer(2)) if k == b"b"));
            assert!(
                matches!(&pairs[1], (ScriptValue::String(k), ScriptValue::String(v)) if k == b"a" && v == b"one")
            );
        }
        other => panic!("{:?}", other),
    }
}

#[test]
fn to_lua_refuses_a_thread_yield() {
    let marker = LuaMessage::ThreadYield("3".to_string());
    assert_eq!(marker.to_lua().unwrap_err(), ConversionError::ThreadYield);
    assert!(!marker.is_marker_free());
}

#[test]
fn to_lua_refuses_a_thread_yield_inside_a_table() {
    let inner = LuaMessage::Table(vec![entry("deep", LuaMessage::ThreadYield("3".to_string()))]);
    let outer = LuaMessage::Table(vec![entry("fine", LuaMessage::from(1)), entry("inner", inner)]);
    assert_eq!(outer.to_lua().unwrap_err(), ConversionError::ThreadYield);
    assert!(!outer.is_marker_free());
    assert!(LuaMessage::Table(vec![entry("fine", LuaMessage::from(1))]).is_marker_free());
}

#[test]
fn from_lua_reads_each_kind_as_itself() {
    assert_eq!(LuaMessage::from_lua(&ScriptValue::Nil).unwrap(), LuaMessage::Nil);
    assert_eq!(LuaMessage::from_lua(&ScriptValue::Boolean(true)).unwrap(), LuaMessage::Boolean(true));
    assert_eq!(LuaMessage::from_lua(&ScriptValue::Integer(-4)).unwrap(), LuaMessage::Integer(-4));
    assert_eq!(LuaMessage::from_lua(&ScriptValue::Number(5)).unwrap(), LuaMessage::Number(5));
    assert_eq!(
        LuaMessage::from_lua(&ScriptValue::String("grüß".as_bytes().to_vec())).unwrap(),
        LuaMessage::from("grüß")
    );
}

#[test]
fn from_lua_refuses_what_is_not_utf8() {
    let broken = ScriptValue::String(vec![b't', b'e', b's', b't', 0xff]);
    assert_eq!(LuaMessage::from_lua(&broken).unwrap_err(), ConversionError::InvalidUtf8);
    let key = ScriptValue::Table(vec![(ScriptValue::String(vec![0xc0]), ScriptValue::Nil)]);
    assert_eq!(LuaMessage::from_lua(&key).unwrap_err(), ConversionError::InvalidUtf8);
}

#[test]
fn from_lua_refuses_what_lives_in_the_interpreter() {
    for value in [
        ScriptValue::Function,
        ScriptValue::Thread,
        ScriptValue::UserData,
        ScriptValue::LightUserData,
        ScriptValue::Error,
    ] {
        assert_eq!(LuaMessage::from_lua(&value).unwrap_err(), ConversionError::UnsupportedValue);
    }
}

#[test]
fn from_lua_hands_on_what_is_wrong_inside_a_table() {
    let inner = ScriptValue::Table(vec![(ScriptValue::text("f"), ScriptValue::Function)]);
    let outer = ScriptValue::Table(vec![
        (ScriptValue::text("ok"), ScriptValue::Integer(1)),
        (ScriptValue::text("inner"), inner),
    ]);
    assert_eq!(LuaMessage::from_lua(&outer).unwrap_err(), ConversionError::UnsupportedValue);
}

#[test]
fn from_lua_reports_the_first_pair_that_is_wrong() {
    let table = ScriptValue::Table(vec![
        (ScriptValue::Boolean(true), ScriptValue::Function),
        (ScriptValue::text("f"), ScriptValue::Function),
    ]);
    assert_eq!(LuaMessage::from_lua(&table).unwrap_err(), ConversionError::UnsupportedKey);
    let table = ScriptValue::Table(vec![
        (ScriptValue::text("f"), ScriptValue::Function),
        (ScriptValue::Boolean(true), ScriptValue::Nil),
    ]);
    assert_eq!(LuaMessage::from_lua(&table).unwrap_err(), ConversionError::UnsupportedValue);
}

#[test]
fn from_lua_reads_an_integer_key_in_decimal() {
    let list = ScriptValue::Table(vec![
        (ScriptValue::Integer(1), ScriptValue::text("a")),
        (ScriptValue::Integer(2), ScriptValue::text("b")),
        (ScriptValue::Integer(-10), ScriptValue::text("c")),
    ]);
    let expected = LuaMessage::Table(vec![
        entry("1", LuaMessage::from("a")),
        entry("2", LuaMessage::from("b")),
        entry("-10", LuaMessage::from("c")),
    ]);
    assert_eq!(LuaMessage::from_lua(&list).unwrap(), expected);
}

#[test]
fn from_lua_refuses_other_keys() {
    for key in [ScriptValue::Boolean(true), ScriptValue::Number(4609434218613702656), ScriptValue::Nil] {
        let table = ScriptValue::Table(vec![(key, ScriptValue::Integer(1))]);
        assert_eq!(LuaMessage::from_lua(&table).unwrap_err(), ConversionError::UnsupportedKey);
    }
}

#[test]
fn from_lua_lets_the_later_pair_win() {
    let table = ScriptValue::Table(vec![
        (ScriptValue::Integer(1), ScriptValue::text("first")),
        (ScriptValue::text("1"), ScriptValue::text("second")),
    ]);
    let read = LuaMessage::from_lua(&table).unwrap();
    assert_eq!(read.get("1"), Some(&LuaMessage::from("second")));
    assert_eq!(read, LuaMessage::Table(vec![entry("1", LuaMessage::from("second"))]));
}

#[test]
fn round_trip_of_every_kind() {
    for m in [
        LuaMessage::from("text with ü and \u{1F600}"),
        LuaMessage::from(""),
        LuaMessage::Integer(i64::MIN),
        LuaMessage::Integer(i64::MAX),
        LuaMessage::Number(42.5f64.to_bits()),
        LuaMessage::Number(f64::NAN.to_bits()),
        LuaMessage::Boolean(true),
        LuaMessage::Boolean(false),
        LuaMessage::Nil,
        LuaMessage::Table(Vec::new()),
    ] {
        let written = m.to_lua().unwrap();
        assert_eq!(LuaMessage::from_lua(&written).unwrap(), m);
    }
}

#[test]
fn round_trip_of_nested_tables() {
    let mut m = LuaMessage::from("leaf");
    for depth in 0..300 {
        m = LuaMessage::Table(vec![
            entry("depth", LuaMessage::from(depth)),
            entry("below", m),
            entry("flag", LuaMessage::from(depth % 2 == 0)),
        ]);
    }
    let written = m.to_lua().unwrap();
    assert_eq!(LuaMessage::from_lua(&written).unwrap(), m);
}

#[test]
fn round_trip_of_a_table_with_a_key_written_twice() {
    let m = LuaMessage::Table(vec![
        entry("k", LuaMessage::from(1)),
        entry("other", LuaMessage::Nil),
        entry("k", LuaMessage::from(2)),
    ]);
    let back = LuaMessage::from_lua(&m.to_lua().unwrap()).unwrap();
    assert_eq!(back, m);
    assert_eq!(back.get("k"), Some(&LuaMessage::from(2)));
}

#[test]
fn equality_does_not_mind_the_order_of_entries() {
    let a = LuaMessage::Table(vec![entry("x", LuaMessage::from(1)), entry("y", LuaMessage::from(2))]);
    let b = LuaMessage::Table(vec![entry("y", LuaMessage::from(2)), entry("x", LuaMessage::from(1))]);
    assert_eq!(a, b);
    assert!(a.same(&b));
}

#[test]
fn equality_goes_by_the_last_entry_of_a_key() {
    let a = LuaMessage::Table(vec![entry("x", LuaMessage::from(1)), entry("x", LuaMessage::from(2))]);
    let b = LuaMessage::Table(vec![entry("x", LuaMessage::from(2))]);
    let c = LuaMessage::Table(vec![entry("x", LuaMessage::from(1))]);
    assert_eq!(a, b);
    assert_ne!(a, c);
}

#[test]
fn equality_tells_tables_apart() {
    let a = LuaMessage::Table(vec![entry("x", LuaMessage::from(1))]);
    let more = LuaMessage::Table(vec![entry("x", LuaMessage::from(1)), entry("y", LuaMessage::Nil)]);
    let other = LuaMessage::Table(vec![entry("x", LuaMessage::from("1"))]);
    let nested = LuaMessage::Table(vec![entry("x", a.clone())]);
    let nested_other = LuaMessage::Table(vec![entry("x", other.clone())]);
    assert_ne!(a, more);
    assert_ne!(more, a);
    assert_ne!(a, other);
    assert_ne!(nested, nested_other);
    assert_ne!(a, LuaMessage::Nil);
    assert_eq!(LuaMessage::Table(Vec::new()), LuaMessage::Table(Vec::new()));
}

#[test]
fn equality_tells_kinds_apart() {
    assert_ne!(LuaMessage::Integer(1), LuaMessage::Number(1));
    assert_ne!(LuaMessage::from("1"), LuaMessage::Integer(1));
    assert_ne!(LuaMessage::from("1"), LuaMessage::ThreadYield("1".to_string()));
    assert_ne!(LuaMessage::Boolean(false), LuaMessage::Nil);
    assert_eq!(LuaMessage::ThreadYield("4".to_string()), LuaMessage::ThreadYield("4".to_string()));
    assert_ne!(LuaMessage::Number(0f64.to_bits()), LuaMessage::Number((-0f64).to_bits()));
}

#[test]
fn get_finds_the_last_entry() {
    let table = LuaMessage::Table(vec![
        entry("x", LuaMessage::from(1)),
        entry("y", LuaMessage::from(2)),
        entry("x", LuaMessage::from(3)),
    ]);
    assert_eq!(table.get("x"), Some(&LuaMessage::from(3)));
    assert_eq!(table.get("y"), Some(&LuaMessage::from(2)));
    assert_eq!(table.get("z"), None);
    assert_eq!(LuaMessage::from("x").get("x"), None);
}

#[test]
fn clone_says_the_same() {
    let table = LuaMessage::Table(vec![
        entry("x", LuaMessage::from(1)),
        entry("inner", LuaMessage::Table(vec![entry("s", LuaMessage::from("t"))])),
        entry("mark", LuaMessage::ThreadYield("9".to_string())),
    ]);
    assert_eq!(table.clone(), table);
    assert_eq!(LuaMessage::Number(3).clone(), LuaMessage::Number(3));
}

#[test]
fn string_constructor_keeps_the_text() {
    assert_eq!(LuaMessage::string("abc"), LuaMessage::String("abc".to_string()));
    match ScriptValue::text("abc") {
        ScriptValue::String(bytes) => assert_eq!(bytes, vec![b'a', b'b', b'c']),
        other => panic!("{:?}", other),
    }
}

#[test]
fn what_was_read_is_written_back_the_same() {
    let value = ScriptValue::Table(vec![
        (ScriptValue::text("b"), ScriptValue::Integer(2)),
        (ScriptValue::text("a"), ScriptValue::Table(vec![(ScriptValue::text("x"), ScriptValue::Nil)])),
        (ScriptValue::text("b"), ScriptValue::Boolean(true)),
        (ScriptValue::text("n"), ScriptValue::Number(7)),
    ]);
    let back = LuaMessage::from_lua(&value).unwrap().to_lua().unwrap();
    assert_eq!(format!("{:?}", back), format!("{:?}", value));
}

#[test]
fn an_integer_key_is_written_back_as_a_string() {
    let value = ScriptValue::Table(vec![(ScriptValue::Integer(1), ScriptValue::Nil)]);
    let back = LuaMessage::from_lua(&value).unwrap().to_lua().unwrap();
    assert_eq!(
        format!("{:?}", back),
        format!("{:?}", ScriptValue::Table(vec![(ScriptValue::text("1"), ScriptValue::Nil)]))
    );
}
