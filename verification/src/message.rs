use crate::directory::{directory, lookup};
use vstd::prelude::*;

verus! {

broadcast use {
    vstd::std_specs::vec::axiom_vec_decreases_to_view,
    vstd::std_specs::vec::axiom_vec_index_decreases,
    vstd::seq::axiom_seq_index_decreases,
    vstd::seq::axiom_seq_subrange_decreases,
};

/// What a message says, apart from how it is laid out in memory. A table is a
/// finite map from keys to what its entries say; the order in which the
/// entries were written is not part of it.
#[verifier::ext_equal]
pub enum MessageModel {
    String(Seq<char>),
    Integer(int),
    /// The bit pattern of a double.
    Number(u64),
    Boolean(bool),
    Nil,
    Table(Map<Seq<char>, MessageModel>),
    ThreadYield(Seq<char>),
}

/// A value that crosses the boundary between a script and its host.
///
/// `Number` carries the IEEE 754 bit pattern of a double (`f64::to_bits`), so
/// two numbers are the same message exactly when their bits agree.
///
/// `Table` lists its entries in the order in which they were written. Where
/// a key occurs more than once the last entry counts, as when the entries
/// are inserted into a map one after the other. An entry whose value is `Nil`
/// is an entry here; the interpreter keeps no such entry, so that it is gone
/// from a table that has been through a script.
///
/// `ThreadYield` is only ever the outcome of an invocation: it names the
/// continuation that holds the suspended script. It is never an argument.
#[derive(Debug)]
pub enum LuaMessage {
    String(String),
    Integer(i64),
    Number(u64),
    Boolean(bool),
    Nil,
    Table(Vec<(String, LuaMessage)>),
    ThreadYield(String),
}

/// What the message `m` says.
pub open spec fn message_model(m: LuaMessage) -> MessageModel
    decreases m,
{
    match m {
        LuaMessage::String(s) => MessageModel::String(s@),
        LuaMessage::Integer(i) => MessageModel::Integer(i as int),
        LuaMessage::Number(bits) => MessageModel::Number(bits),
        LuaMessage::Boolean(b) => MessageModel::Boolean(b),
        LuaMessage::Nil => MessageModel::Nil,
        LuaMessage::Table(entries) => MessageModel::Table(entries_model(entries@)),
        LuaMessage::ThreadYield(id) => MessageModel::ThreadYield(id@),
    }
}

/// The map that a list of table entries stands for: the entries inserted
/// one after the other, a later one replacing an earlier one of the same key.
pub open spec fn entries_model(entries: Seq<(String, LuaMessage)>) -> Map<Seq<char>, MessageModel>
    decreases entries,
{
    if entries.len() == 0 {
        Map::empty()
    } else {
        entries_model(entries.drop_last()).insert(
            entries.last().0@,
            message_model(entries.last().1),
        )
    }
}

impl View for LuaMessage {
    type V = MessageModel;

    open spec fn view(&self) -> MessageModel {
        message_model(*self)
    }
}

/// The map of a list of entries has the keys of the directory of that list,
/// and holds under each key what the entry in the directory says.
pub proof fn lemma_entries_model_is_directory(entries: Seq<(String, LuaMessage)>)
    ensures
        entries_model(entries).dom() == directory(entries).dom(),
        forall|key: Seq<char>| #[trigger]
            directory(entries).contains_key(key) ==> entries_model(entries)[key] == message_model(
                directory(entries)[key],
            ),
    decreases entries.len(),
{
    if entries.len() > 0 {
        lemma_entries_model_is_directory(entries.drop_last());
    }
    assert(entries_model(entries).dom() =~= directory(entries).dom());
}

/// Two lists of entries that agree entry by entry, in the keys' text and in
/// what the values say, stand for the same map.
pub proof fn lemma_entries_model_pointwise(
    a: Seq<(String, LuaMessage)>,
    b: Seq<(String, LuaMessage)>,
)
    requires
        a.len() == b.len(),
        forall|i: int| 0 <= i < a.len() ==> a[i].0@ == b[i].0@,
        forall|i: int| 0 <= i < a.len() ==> message_model(a[i].1) == message_model(b[i].1),
    ensures
        entries_model(a) == entries_model(b),
    decreases a.len(),
{
    if a.len() > 0 {
        lemma_entries_model_pointwise(a.drop_last(), b.drop_last());
    }
}

impl Clone for LuaMessage {
    /// A copy that says the same.
    fn clone(&self) -> (r: LuaMessage)
        ensures
            r@ == self@,
        decreases self,
    {
        match self {
            LuaMessage::String(s) => LuaMessage::String(s.clone()),
            LuaMessage::Integer(i) => LuaMessage::Integer(*i),
            LuaMessage::Number(bits) => LuaMessage::Number(*bits),
            LuaMessage::Boolean(b) => LuaMessage::Boolean(*b),
            LuaMessage::Nil => LuaMessage::Nil,
            LuaMessage::Table(entries) => {
                let mut copy: Vec<(String, LuaMessage)> = Vec::new();
                let mut i: usize = 0;
                while i < entries.len()
                    invariant
                        *self == LuaMessage::Table(*entries),
                        i <= entries.len(),
                        copy.len() == i,
                        forall|j: int| 0 <= j < i ==> copy@[j].0@ == entries@[j].0@,
                        forall|j: int|
                            0 <= j < i ==> message_model(copy@[j].1) == message_model(
                                entries@[j].1,
                            ),
                    decreases entries.len() - i,
                {
                    proof {
                        assert(decreases_to!(*self => self->Table_0));
                    }
                    let key = entries[i].0.clone();
                    let value = entries[i].1.clone();
                    copy.push((key, value));
                    i = i + 1;
                }
                proof {
                    lemma_entries_model_pointwise(copy@, entries@);
                }
                LuaMessage::Table(copy)
            },
            LuaMessage::ThreadYield(id) => LuaMessage::ThreadYield(id.clone()),
        }
    }
}

impl LuaMessage {
    /// A number message holding the double whose bit pattern is `bits`
    /// (`f64::to_bits`).
    pub fn number(bits: u64) -> (r: LuaMessage)
        ensures
            r == LuaMessage::Number(bits),
    {
        LuaMessage::Number(bits)
    }

    /// A string message holding the text of `s`.
    pub fn string(s: &str) -> (r: LuaMessage)
        ensures
            r@ == MessageModel::String(s@),
    {
        LuaMessage::String(s.to_owned())
    }

    /// The entry of a table under `key`: the last one written with that key.
    /// `None` where the message is no table or the table has no such key.
    pub fn get(&self, key: &str) -> (r: Option<&LuaMessage>)
        ensures
            match self@ {
                MessageModel::Table(map) => match r {
                    Some(v) => map.contains_key(key@) && v@ == map[key@],
                    None => !map.contains_key(key@),
                },
                _ => r is None,
            },
    {
        match self {
            LuaMessage::Table(entries) => {
                proof {
                    lemma_entries_model_is_directory(entries@);
                }
                lookup(entries, key)
            },
            _ => None,
        }
    }
}

impl From<bool> for LuaMessage {
    fn from(s: bool) -> (r: LuaMessage) {
        LuaMessage::Boolean(s)
    }
}

impl vstd::std_specs::convert::FromSpecImpl<bool> for LuaMessage {
    open spec fn obeys_from_spec() -> bool {
        true
    }

    open spec fn from_spec(s: bool) -> LuaMessage {
        LuaMessage::Boolean(s)
    }
}

impl<'l> From<&'l str> for LuaMessage {
    fn from(s: &'l str) -> (r: LuaMessage)
        ensures
            r@ == MessageModel::String(s@),
    {
        LuaMessage::string(s)
    }
}

/// A string slice cannot be turned into an owned string in a specification,
/// so `from` states its result by the message's view instead.
impl<'l> vstd::std_specs::convert::FromSpecImpl<&'l str> for LuaMessage {
    open spec fn obeys_from_spec() -> bool {
        false
    }

    open spec fn from_spec(s: &'l str) -> LuaMessage {
        LuaMessage::Nil
    }
}

impl From<String> for LuaMessage {
    fn from(s: String) -> (r: LuaMessage) {
        LuaMessage::String(s)
    }
}

impl vstd::std_specs::convert::FromSpecImpl<String> for LuaMessage {
    open spec fn obeys_from_spec() -> bool {
        true
    }

    open spec fn from_spec(s: String) -> LuaMessage {
        LuaMessage::String(s)
    }
}

impl From<Vec<(String, LuaMessage)>> for LuaMessage {
    fn from(s: Vec<(String, LuaMessage)>) -> (r: LuaMessage) {
        LuaMessage::Table(s)
    }
}

impl vstd::std_specs::convert::FromSpecImpl<Vec<(String, LuaMessage)>> for LuaMessage {
    open spec fn obeys_from_spec() -> bool {
        true
    }

    open spec fn from_spec(s: Vec<(String, LuaMessage)>) -> LuaMessage {
        LuaMessage::Table(s)
    }
}

impl From<i8> for LuaMessage {
    fn from(s: i8) -> (r: LuaMessage) {
        LuaMessage::Integer(s as i64)
    }
}

impl vstd::std_specs::convert::FromSpecImpl<i8> for LuaMessage {
    open spec fn obeys_from_spec() -> bool {
        true
    }

    open spec fn from_spec(s: i8) -> LuaMessage {
        LuaMessage::Integer(s as i64)
    }
}

impl From<u8> for LuaMessage {
    fn from(s: u8) -> (r: LuaMessage) {
        LuaMessage::Integer(s as i64)
    }
}

impl vstd::std_specs::convert::FromSpecImpl<u8> for LuaMessage {
    open spec fn obeys_from_spec() -> bool {
        true
    }

    open spec fn from_spec(s: u8) -> LuaMessage {
        LuaMessage::Integer(s as i64)
    }
}

impl From<i16> for LuaMessage {
    fn from(s: i16) -> (r: LuaMessage) {
        LuaMessage::Integer(s as i64)
    }
}

impl vstd::std_specs::convert::FromSpecImpl<i16> for LuaMessage {
    open spec fn obeys_from_spec() -> bool {
        true
    }

    open spec fn from_spec(s: i16) -> LuaMessage {
        LuaMessage::Integer(s as i64)
    }
}

impl From<u16> for LuaMessage {
    fn from(s: u16) -> (r: LuaMessage) {
        LuaMessage::Integer(s as i64)
    }
}

impl vstd::std_specs::convert::FromSpecImpl<u16> for LuaMessage {
    open spec fn obeys_from_spec() -> bool {
        true
    }

    open spec fn from_spec(s: u16) -> LuaMessage {
        LuaMessage::Integer(s as i64)
    }
}

impl From<i32> for LuaMessage {
    fn from(s: i32) -> (r: LuaMessage) {
        LuaMessage::Integer(s as i64)
    }
}

impl vstd::std_specs::convert::FromSpecImpl<i32> for LuaMessage {
    open spec fn obeys_from_spec() -> bool {
        true
    }

    open spec fn from_spec(s: i32) -> LuaMessage {
        LuaMessage::Integer(s as i64)
    }
}

impl From<u32> for LuaMessage {
    fn from(s: u32) -> (r: LuaMessage) {
        LuaMessage::Integer(s as i64)
    }
}

impl vstd::std_specs::convert::FromSpecImpl<u32> for LuaMessage {
    open spec fn obeys_from_spec() -> bool {
        true
    }

    open spec fn from_spec(s: u32) -> LuaMessage {
        LuaMessage::Integer(s as i64)
    }
}

impl From<i64> for LuaMessage {
    fn from(s: i64) -> (r: LuaMessage) {
        LuaMessage::Integer(s)
    }
}

impl vstd::std_specs::convert::FromSpecImpl<i64> for LuaMessage {
    open spec fn obeys_from_spec() -> bool {
        true
    }

    open spec fn from_spec(s: i64) -> LuaMessage {
        LuaMessage::Integer(s)
    }
}

/// A size above the largest 64-bit signed integer wraps around.
impl From<usize> for LuaMessage {
    fn from(s: usize) -> (r: LuaMessage) {
        LuaMessage::Integer(#[verifier::truncate] (s as i64))
    }
}

impl vstd::std_specs::convert::FromSpecImpl<usize> for LuaMessage {
    open spec fn obeys_from_spec() -> bool {
        true
    }

    open spec fn from_spec(s: usize) -> LuaMessage {
        LuaMessage::Integer(s as i64)
    }
}

/// On every supported platform the value fits.
impl From<isize> for LuaMessage {
    fn from(s: isize) -> (r: LuaMessage) {
        LuaMessage::Integer(#[verifier::truncate] (s as i64))
    }
}

impl vstd::std_specs::convert::FromSpecImpl<isize> for LuaMessage {
    open spec fn obeys_from_spec() -> bool {
        true
    }

    open spec fn from_spec(s: isize) -> LuaMessage {
        LuaMessage::Integer(s as i64)
    }
}

} // verus!
