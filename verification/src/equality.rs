use crate::directory::{directory, find_last, lemma_directory_lookup};
use crate::message::{entries_model, lemma_entries_model_is_directory, message_model, LuaMessage};
use vstd::prelude::*;
use vstd::std_specs::cmp::PartialEqSpecImpl;

verus! {

broadcast use {
    vstd::std_specs::vec::axiom_vec_decreases_to_view,
    vstd::std_specs::vec::axiom_vec_index_decreases,
};

/// Whether every key of `a` is a key of `b`.
fn keys_within(a: &Vec<(String, LuaMessage)>, b: &Vec<(String, LuaMessage)>) -> (r: bool)
    ensures
        r == entries_model(a@).dom().subset_of(entries_model(b@).dom()),
{
    proof {
        lemma_entries_model_is_directory(a@);
        lemma_entries_model_is_directory(b@);
    }
    let mut i: usize = 0;
    while i < a.len()
        invariant
            i <= a.len(),
            entries_model(a@).dom() == directory(a@).dom(),
            entries_model(b@).dom() == directory(b@).dom(),
            forall|j: int| 0 <= j < i ==> directory(b@).contains_key(#[trigger] a@[j].0@),
        decreases a.len() - i,
    {
        proof {
            lemma_directory_lookup(a@, a@[i as int].0@);
            lemma_directory_lookup(b@, a@[i as int].0@);
        }
        if find_last(b, a[i].0.as_str()).is_none() {
            return false;
        }
        i = i + 1;
    }
    proof {
        assert forall|key: Seq<char>| directory(a@).contains_key(key) implies directory(
            b@,
        ).contains_key(key) by {
            lemma_directory_lookup(a@, key);
        }
    }
    true
}

impl LuaMessage {
    /// Whether two messages say the same.
    pub fn same(&self, other: &LuaMessage) -> (r: bool)
        ensures
            r == (self@ == other@),
        decreases self,
    {
        match (self, other) {
            (LuaMessage::String(a), LuaMessage::String(b)) => *a == *b,
            (LuaMessage::Integer(a), LuaMessage::Integer(b)) => *a == *b,
            (LuaMessage::Number(a), LuaMessage::Number(b)) => *a == *b,
            (LuaMessage::Boolean(a), LuaMessage::Boolean(b)) => *a == *b,
            (LuaMessage::Nil, LuaMessage::Nil) => true,
            (LuaMessage::ThreadYield(a), LuaMessage::ThreadYield(b)) => *a == *b,
            (LuaMessage::Table(a), LuaMessage::Table(b)) => {
                let ghost left = entries_model(a@);
                let ghost right = entries_model(b@);
                proof {
                    lemma_entries_model_is_directory(a@);
                    lemma_entries_model_is_directory(b@);
                }
                let mut i: usize = 0;
                while i < a.len()
                    invariant
                        *self == LuaMessage::Table(*a),
                        *other == LuaMessage::Table(*b),
                        i <= a.len(),
                        left == entries_model(a@),
                        right == entries_model(b@),
                        left.dom() == directory(a@).dom(),
                        right.dom() == directory(b@).dom(),
                        forall|key: Seq<char>| #[trigger]
                            directory(a@).contains_key(key) ==> left[key] == message_model(
                                directory(a@)[key],
                            ),
                        forall|key: Seq<char>| #[trigger]
                            directory(b@).contains_key(key) ==> right[key] == message_model(
                                directory(b@)[key],
                            ),
                        forall|j: int|
                            0 <= j < i ==> left.contains_key(#[trigger] a@[j].0@)
                                && right.contains_key(a@[j].0@) && left[a@[j].0@]
                                == right[a@[j].0@],
                    decreases a.len() - i,
                {
                    let ghost key = a@[i as int].0@;
                    proof {
                        lemma_directory_lookup(a@, key);
                        lemma_directory_lookup(b@, key);
                    }
                    let here = match find_last(a, a[i].0.as_str()) {
                        Some(here) => here,
                        None => {
                            return false;
                        },
                    };
                    let there = match find_last(b, a[i].0.as_str()) {
                        Some(there) => there,
                        None => {
                            return false;
                        },
                    };
                    proof {
                        assert(decreases_to!(*self => self->Table_0));
                    }
                    if !a[here].1.same(&b[there].1) {
                        return false;
                    }
                    i = i + 1;
                }
                if !keys_within(b, a) {
                    return false;
                }
                proof {
                    assert forall|key: Seq<char>| #[trigger]
                        left.dom().contains(key) implies right.dom().contains(key) && left[key]
                        == right[key] by {
                        lemma_directory_lookup(a@, key);
                    }
                    assert(left =~= right);
                }
                true
            },
            _ => false,
        }
    }
}

impl PartialEq for LuaMessage {
    /// Two messages are equal where they say the same: a table's entries
    /// may be written in any order.
    fn eq(&self, other: &LuaMessage) -> (r: bool) {
        self.same(other)
    }
}

impl PartialEqSpecImpl for LuaMessage {
    open spec fn obeys_eq_spec() -> bool {
        true
    }

    open spec fn eq_spec(&self, other: &LuaMessage) -> bool {
        self@ == other@
    }
}

} // verus!
