use crate::decimal::{decimal, decimal_string};
use crate::message::{entries_model, LuaMessage, MessageModel};
use crate::value::{is_data, pairs_are_data, ScriptValue};
use vstd::prelude::*;
use vstd::utf8::{decode_utf8, encode_utf8, valid_utf8};

verus! {

broadcast use {
    vstd::std_specs::vec::axiom_vec_decreases_to_view,
    vstd::std_specs::vec::axiom_vec_index_decreases,
    vstd::seq::axiom_seq_index_decreases,
    vstd::seq::axiom_seq_subrange_decreases,
    vstd::utf8::encode_utf8_valid_utf8,
    vstd::utf8::encode_utf8_decode_utf8,
    vstd::utf8::decode_utf8_encode_utf8,
};

/// Why a value could not cross the boundary.
#[derive(Debug, Clone, Copy, PartialEq, Eq, Structural)]
pub enum ConversionError {
    /// A message that holds a `ThreadYield` was to be handed to a script.
    ThreadYield,
    /// The script's value is, or holds, a function, a coroutine, a userdata
    /// or an error object.
    UnsupportedValue,
    /// A string of the script is not UTF-8.
    InvalidUtf8,
    /// A table of the script has a key that is neither a string nor an
    /// integer.
    UnsupportedKey,
}

/// Whether `m` can be handed to a script: no `ThreadYield` in it, at any
/// depth, in any entry that was written.
pub open spec fn marker_free(m: LuaMessage) -> bool
    decreases m,
{
    match m {
        LuaMessage::ThreadYield(_) => false,
        LuaMessage::Table(entries) => entries_marker_free(entries@),
        _ => true,
    }
}

/// Whether every value among `entries` can be handed to a script.
pub open spec fn entries_marker_free(entries: Seq<(String, LuaMessage)>) -> bool
    decreases entries,
{
    if entries.len() == 0 {
        true
    } else {
        entries_marker_free(entries.drop_last()) && marker_free(entries.last().1)
    }
}

/// Whether the script value `s` is the message `m` written out for the
/// interpreter: kind for kind, a string as its UTF-8 bytes, a table entry by
/// entry in the order written, each key as a string.
pub open spec fn mirrors(s: ScriptValue, m: LuaMessage) -> bool
    decreases m,
{
    match m {
        LuaMessage::String(text) => s matches ScriptValue::String(bytes) && bytes@ == encode_utf8(
            text@,
        ),
        LuaMessage::Integer(i) => s == ScriptValue::Integer(i),
        LuaMessage::Number(bits) => s == ScriptValue::Number(bits),
        LuaMessage::Boolean(b) => s == ScriptValue::Boolean(b),
        LuaMessage::Nil => s == ScriptValue::Nil,
        LuaMessage::Table(entries) => s matches ScriptValue::Table(pairs) && pairs_mirror(
            pairs@,
            entries@,
        ),
        LuaMessage::ThreadYield(_) => false,
    }
}

/// Whether `pairs` is `entries` written out for the interpreter.
pub open spec fn pairs_mirror(
    pairs: Seq<(ScriptValue, ScriptValue)>,
    entries: Seq<(String, LuaMessage)>,
) -> bool
    decreases entries,
{
    if entries.len() == 0 {
        pairs.len() == 0
    } else {
        &&& pairs.len() == entries.len()
        &&& pairs_mirror(pairs.drop_last(), entries.drop_last())
        &&& pairs.last().0 matches ScriptValue::String(bytes) && bytes@ == encode_utf8(
            entries.last().0@,
        )
        &&& mirrors(pairs.last().1, entries.last().1)
    }
}

/// Whether every key of every table in `v` is a string.
pub open spec fn string_keyed(v: ScriptValue) -> bool
    decreases v,
{
    match v {
        ScriptValue::Table(pairs) => pairs_string_keyed(pairs@),
        _ => true,
    }
}

/// Whether every key among `pairs`, and in the values among them, is a
/// string.
pub open spec fn pairs_string_keyed(pairs: Seq<(ScriptValue, ScriptValue)>) -> bool
    decreases pairs,
{
    if pairs.len() == 0 {
        true
    } else {
        &&& pairs_string_keyed(pairs.drop_last())
        &&& pairs.last().0 is String
        &&& string_keyed(pairs.last().1)
    }
}

/// The text that a table key of a script becomes: a string's own text, an
/// integer's decimal writing. Other keys are refused.
pub open spec fn key_text(k: ScriptValue) -> Result<Seq<char>, ConversionError> {
    match k {
        ScriptValue::String(bytes) => if valid_utf8(bytes@) {
            Ok(decode_utf8(bytes@))
        } else {
            Err(ConversionError::InvalidUtf8)
        },
        ScriptValue::Integer(i) => Ok(decimal(i as int)),
        _ => Err(ConversionError::UnsupportedKey),
    }
}

/// What the script value `v` says as a message, or why it says nothing. In a
/// table the first pair that cannot be read decides, its key before its
/// value.
pub open spec fn message_of(v: ScriptValue) -> Result<MessageModel, ConversionError>
    decreases v,
{
    match v {
        ScriptValue::Nil => Ok(MessageModel::Nil),
        ScriptValue::Boolean(b) => Ok(MessageModel::Boolean(b)),
        ScriptValue::Integer(i) => Ok(MessageModel::Integer(i as int)),
        ScriptValue::Number(bits) => Ok(MessageModel::Number(bits)),
        ScriptValue::String(bytes) => if valid_utf8(bytes@) {
            Ok(MessageModel::String(decode_utf8(bytes@)))
        } else {
            Err(ConversionError::InvalidUtf8)
        },
        ScriptValue::Table(pairs) => match pairs_message(pairs@) {
            Ok(map) => Ok(MessageModel::Table(map)),
            Err(e) => Err(e),
        },
        _ => Err(ConversionError::UnsupportedValue),
    }
}

/// The map that the pairs of a script's table stand for, inserted one after
/// the other.
pub open spec fn pairs_message(pairs: Seq<(ScriptValue, ScriptValue)>) -> Result<
    Map<Seq<char>, MessageModel>,
    ConversionError,
>
    decreases pairs,
{
    if pairs.len() == 0 {
        Ok(Map::empty())
    } else {
        match pairs_message(pairs.drop_last()) {
            Err(e) => Err(e),
            Ok(map) => match key_text(pairs.last().0) {
                Err(e) => Err(e),
                Ok(key) => match message_of(pairs.last().1) {
                    Err(e) => Err(e),
                    Ok(value) => Ok(map.insert(key, value)),
                },
            },
        }
    }
}

/// Where all keys of a list of pairs are strings, so are those of each of
/// its front parts.
proof fn lemma_string_keyed_front(pairs: Seq<(ScriptValue, ScriptValue)>, n: int)
    requires
        0 <= n <= pairs.len(),
    ensures
        pairs_string_keyed(pairs) ==> pairs_string_keyed(pairs.take(n)),
    decreases pairs.len(),
{
    if n < pairs.len() {
        assert(pairs.drop_last().take(n) == pairs.take(n));
        lemma_string_keyed_front(pairs.drop_last(), n);
    } else {
        assert(pairs.take(n) == pairs);
    }
}

/// One value with a marker in it spoils the whole list.
proof fn lemma_marker_spoils(entries: Seq<(String, LuaMessage)>, i: int)
    requires
        0 <= i < entries.len(),
        !marker_free(entries[i].1),
    ensures
        !entries_marker_free(entries),
    decreases entries.len(),
{
    if i < entries.len() - 1 {
        lemma_marker_spoils(entries.drop_last(), i);
    }
}

/// What cannot be read in a front part of the pairs cannot be read in the
/// whole, and for the same reason.
proof fn lemma_unreadable_front(pairs: Seq<(ScriptValue, ScriptValue)>, n: int)
    requires
        0 <= n <= pairs.len(),
        pairs_message(pairs.take(n)) is Err,
    ensures
        pairs_message(pairs) == pairs_message(pairs.take(n)),
    decreases pairs.len(),
{
    if n < pairs.len() {
        assert(pairs.drop_last().take(n) == pairs.take(n));
        lemma_unreadable_front(pairs.drop_last(), n);
    } else {
        assert(pairs.take(n) == pairs);
    }
}

/// `String::from_utf8`: the text of `bytes` where they are UTF-8, and
/// nothing where they are not.
#[verifier::external_body]
pub(crate) fn text_of_bytes(bytes: Vec<u8>) -> (r: Option<String>)
    ensures
        r is Some <==> valid_utf8(bytes@),
        r matches Some(text) ==> text@ == decode_utf8(bytes@),
{
    String::from_utf8(bytes).ok()
}

/// Reads a table key of a script.
pub fn read_key(k: &ScriptValue) -> (r: Result<String, ConversionError>)
    ensures
        match key_text(*k) {
            Ok(text) => r matches Ok(s) && s@ == text,
            Err(e) => r == Err::<String, ConversionError>(e),
        },
{
    match k {
        ScriptValue::String(bytes) => match text_of_bytes(bytes.clone()) {
            Some(text) => Ok(text),
            None => Err(ConversionError::InvalidUtf8),
        },
        ScriptValue::Integer(i) => Ok(decimal_string(*i)),
        _ => Err(ConversionError::UnsupportedKey),
    }
}

impl LuaMessage {
    /// Whether the message can be handed to a script.
    pub fn is_marker_free(&self) -> (r: bool)
        ensures
            r == marker_free(*self),
        decreases self,
    {
        match self {
            LuaMessage::ThreadYield(_) => false,
            LuaMessage::Table(entries) => {
                let mut i: usize = 0;
                while i < entries.len()
                    invariant
                        *self == LuaMessage::Table(*entries),
                        i <= entries.len(),
                        entries_marker_free(entries@.take(i as int)),
                    decreases entries.len() - i,
                {
                    proof {
                        assert(decreases_to!(*self => self->Table_0));
                    }
                    if !entries[i].1.is_marker_free() {
                        proof {
                            lemma_marker_spoils(entries@, i as int);
                        }
                        return false;
                    }
                    proof {
                        assert(entries@.take(i + 1).drop_last() == entries@.take(i as int));
                    }
                    i = i + 1;
                }
                proof {
                    assert(entries@.take(i as int) == entries@);
                }
                true
            },
            _ => true,
        }
    }

    /// Writes the message out for the interpreter.
    ///
    /// Every message without a `ThreadYield` in it can be written out; one
    /// with a `ThreadYield`, at any depth, is refused.
    pub fn to_lua(&self) -> (r: Result<ScriptValue, ConversionError>)
        ensures
            marker_free(*self) ==> r is Ok && mirrors(r.unwrap(), *self),
            !marker_free(*self) ==> r == Err::<ScriptValue, ConversionError>(
                ConversionError::ThreadYield,
            ),
        decreases self,
    {
        match self {
            LuaMessage::String(text) => Ok(ScriptValue::text(text.as_str())),
            LuaMessage::Integer(i) => Ok(ScriptValue::Integer(*i)),
            LuaMessage::Number(bits) => Ok(ScriptValue::Number(*bits)),
            LuaMessage::Boolean(b) => Ok(ScriptValue::Boolean(*b)),
            LuaMessage::Nil => Ok(ScriptValue::Nil),
            LuaMessage::Table(entries) => {
                let mut pairs: Vec<(ScriptValue, ScriptValue)> = Vec::new();
                let mut i: usize = 0;
                while i < entries.len()
                    invariant
                        *self == LuaMessage::Table(*entries),
                        i <= entries.len(),
                        pairs.len() == i,
                        entries_marker_free(entries@.take(i as int)),
                        pairs_mirror(pairs@, entries@.take(i as int)),
                    decreases entries.len() - i,
                {
                    proof {
                        assert(decreases_to!(*self => self->Table_0));
                    }
                    let ghost before = pairs@;
                    match entries[i].1.to_lua() {
                        Err(e) => {
                            proof {
                                lemma_marker_spoils(entries@, i as int);
                            }
                            return Err(e);
                        },
                        Ok(value) => {
                            pairs.push((ScriptValue::text(entries[i].0.as_str()), value));
                        },
                    }
                    proof {
                        assert(entries@.take(i + 1).drop_last() == entries@.take(i as int));
                        assert(pairs@.drop_last() == before);
                    }
                    i = i + 1;
                }
                proof {
                    assert(entries@.take(i as int) == entries@);
                }
                Ok(ScriptValue::Table(pairs))
            },
            LuaMessage::ThreadYield(_) => Err(ConversionError::ThreadYield),
        }
    }

    /// Reads a value of the interpreter as a message.
    ///
    /// Succeeds exactly on plain data whose strings are UTF-8 and whose table
    /// keys are strings or integers; an integer key is read as its decimal
    /// writing. (A key with a fraction has become a string on its way out of
    /// the interpreter.) The result is never a `ThreadYield`. Where all keys
    /// are strings, the value is the message written out: `to_lua` gives it
    /// back.
    pub fn from_lua(v: &ScriptValue) -> (r: Result<LuaMessage, ConversionError>)
        ensures
            match message_of(*v) {
                Ok(model) => r matches Ok(m) && m@ == model,
                Err(e) => r == Err::<LuaMessage, ConversionError>(e),
            },
            r matches Ok(m) ==> (string_keyed(*v) ==> mirrors(*v, m)),
        decreases v,
    {
        match v {
            ScriptValue::Nil => Ok(LuaMessage::Nil),
            ScriptValue::Boolean(b) => Ok(LuaMessage::Boolean(*b)),
            ScriptValue::Integer(i) => Ok(LuaMessage::Integer(*i)),
            ScriptValue::Number(bits) => Ok(LuaMessage::Number(*bits)),
            ScriptValue::String(bytes) => match text_of_bytes(bytes.clone()) {
                Some(text) => Ok(LuaMessage::String(text)),
                None => Err(ConversionError::InvalidUtf8),
            },
            ScriptValue::Table(pairs) => {
                let mut entries: Vec<(String, LuaMessage)> = Vec::new();
                let mut i: usize = 0;
                while i < pairs.len()
                    invariant
                        *v == ScriptValue::Table(*pairs),
                        i <= pairs.len(),
                        entries@.len() == i,
                        pairs_message(pairs@.take(i as int)) == Ok::<
                            Map<Seq<char>, MessageModel>,
                            ConversionError,
                        >(entries_model(entries@)),
                        pairs_string_keyed(pairs@.take(i as int)) ==> pairs_mirror(
                            pairs@.take(i as int),
                            entries@,
                        ),
                    decreases pairs.len() - i,
                {
                    proof {
                        assert(pairs@.take(i + 1).drop_last() == pairs@.take(i as int));
                    }
                    let ghost before = entries@;
                    let key = match read_key(&pairs[i].0) {
                        Ok(key) => key,
                        Err(e) => {
                            proof {
                                lemma_unreadable_front(pairs@, i + 1);
                            }
                            return Err(e);
                        },
                    };
                    let value = match LuaMessage::from_lua(&pairs[i].1) {
                        Ok(value) => value,
                        Err(e) => {
                            proof {
                                lemma_unreadable_front(pairs@, i + 1);
                            }
                            return Err(e);
                        },
                    };
                    entries.push((key, value));
                    proof {
                        assert(entries@.drop_last() == before);
                    }
                    i = i + 1;
                }
                proof {
                    assert(pairs@.take(i as int) == pairs@);
                    lemma_string_keyed_front(pairs@, i as int);
                }
                Ok(LuaMessage::Table(entries))
            },
            _ => Err(ConversionError::UnsupportedValue),
        }
    }
}

/// A message that was written out for the interpreter reads back as the
/// message it was: for every kind but `ThreadYield`, and for tables nested to
/// any depth.
///
/// This is said of what is written out and read, not of what the interpreter
/// does with it in between: the interpreter keeps no table entry whose value
/// is nil, so that a table with such an entry comes back from a script
/// without it.
pub proof fn lemma_round_trip(s: ScriptValue, m: LuaMessage)
    requires
        mirrors(s, m),
    ensures
        message_of(s) == Ok::<MessageModel, ConversionError>(m@),
    decreases m,
{
    match m {
        LuaMessage::Table(entries) => {
            lemma_round_trip_entries(s->Table_0@, entries@);
        },
        _ => {},
    }
}

/// The pairs that were written out for a list of entries read back as the
/// map of those entries.
pub proof fn lemma_round_trip_entries(
    pairs: Seq<(ScriptValue, ScriptValue)>,
    entries: Seq<(String, LuaMessage)>,
)
    requires
        pairs_mirror(pairs, entries),
    ensures
        pairs_message(pairs) == Ok::<Map<Seq<char>, MessageModel>, ConversionError>(
            entries_model(entries),
        ),
    decreases entries,
{
    if entries.len() > 0 {
        lemma_round_trip_entries(pairs.drop_last(), entries.drop_last());
        lemma_round_trip(pairs.last().1, entries.last().1);
    }
}

/// What was written out for the interpreter is plain data.
pub proof fn lemma_mirror_is_data(s: ScriptValue, m: LuaMessage)
    requires
        mirrors(s, m),
    ensures
        is_data(s),
    decreases m,
{
    match m {
        LuaMessage::Table(entries) => {
            lemma_mirror_pairs_are_data(s->Table_0@, entries@);
        },
        _ => {},
    }
}

/// The pairs that were written out for the interpreter are plain data.
pub proof fn lemma_mirror_pairs_are_data(
    pairs: Seq<(ScriptValue, ScriptValue)>,
    entries: Seq<(String, LuaMessage)>,
)
    requires
        pairs_mirror(pairs, entries),
    ensures
        pairs_are_data(pairs),
    decreases entries,
{
    if entries.len() > 0 {
        lemma_mirror_pairs_are_data(pairs.drop_last(), entries.drop_last());
        lemma_mirror_is_data(pairs.last().1, entries.last().1);
        assert(is_data(pairs.last().0));
    }
}

} // verus!
