use vstd::prelude::*;

verus! {

broadcast use {
    vstd::std_specs::vec::axiom_vec_decreases_to_view,
    vstd::seq::axiom_seq_index_decreases,
    vstd::seq::axiom_seq_subrange_decreases,
};

/// A value of the interpreter, copied out of it as plain data.
///
/// Strings are byte strings, as the interpreter keeps them; they need not be
/// UTF-8. A table lists its pairs in the order in which the interpreter
/// walks them. In a table that was copied out of the interpreter, a key that
/// is a number with a fraction stands as the string that the interpreter
/// writes it as. The last five kinds live inside the interpreter only: of such
/// a value nothing but its kind is copied.
#[derive(Debug)]
pub enum ScriptValue {
    Nil,
    Boolean(bool),
    Integer(i64),
    /// The bit pattern of a double.
    Number(u64),
    String(Vec<u8>),
    Table(Vec<(ScriptValue, ScriptValue)>),
    Function,
    Thread,
    UserData,
    LightUserData,
    Error,
}

/// Whether `v` is plain data all the way down: no function, coroutine,
/// userdata or error object in it.
pub open spec fn is_data(v: ScriptValue) -> bool
    decreases v,
{
    match v {
        ScriptValue::Nil => true,
        ScriptValue::Boolean(_) => true,
        ScriptValue::Integer(_) => true,
        ScriptValue::Number(_) => true,
        ScriptValue::String(_) => true,
        ScriptValue::Table(pairs) => pairs_are_data(pairs@),
        _ => false,
    }
}

/// Whether every key and every value of `pairs` is plain data.
pub open spec fn pairs_are_data(pairs: Seq<(ScriptValue, ScriptValue)>) -> bool
    decreases pairs,
{
    if pairs.len() == 0 {
        true
    } else {
        pairs_are_data(pairs.drop_last()) && is_data(pairs.last().0) && is_data(pairs.last().1)
    }
}

/// How deep the tables of `v` are nested: nothing for a value that is no
/// table, one for a table without a table in it, and so on.
pub open spec fn nesting(v: ScriptValue) -> nat
    decreases v,
{
    match v {
        ScriptValue::Table(pairs) => 1 + pairs_nesting(pairs@),
        _ => 0,
    }
}

/// How deep the deepest key or value among `pairs` is nested.
pub open spec fn pairs_nesting(pairs: Seq<(ScriptValue, ScriptValue)>) -> nat
    decreases pairs,
{
    if pairs.len() == 0 {
        0
    } else {
        let front = pairs_nesting(pairs.drop_last());
        let key = nesting(pairs.last().0);
        let value = nesting(pairs.last().1);
        if front >= key && front >= value {
            front
        } else if key >= value {
            key
        } else {
            value
        }
    }
}

/// Where all pairs are plain data, each one is.
pub proof fn lemma_pair_is_data(pairs: Seq<(ScriptValue, ScriptValue)>, i: int)
    requires
        pairs_are_data(pairs),
        0 <= i < pairs.len(),
    ensures
        is_data(pairs[i].0),
        is_data(pairs[i].1),
    decreases pairs.len(),
{
    if i < pairs.len() - 1 {
        lemma_pair_is_data(pairs.drop_last(), i);
    }
}

impl ScriptValue {
    /// A string value holding the UTF-8 bytes of `s`.
    pub fn text(s: &str) -> (r: ScriptValue)
        ensures
            r matches ScriptValue::String(bytes) && bytes@ == vstd::utf8::encode_utf8(s@),
    {
        ScriptValue::String(s.as_bytes_vec())
    }
}

} // verus!
