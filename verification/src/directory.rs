use vstd::prelude::*;

verus! {

/// The map that a list of named entries stands for: the entries inserted one
/// after the other, a later one replacing an earlier one of the same name.
pub open spec fn directory<R>(entries: Seq<(String, R)>) -> Map<Seq<char>, R>
    decreases entries.len(),
{
    if entries.len() == 0 {
        Map::empty()
    } else {
        directory(entries.drop_last()).insert(entries.last().0@, entries.last().1)
    }
}

/// Whether `i` is the place of the last entry named `name`.
pub open spec fn is_last_named<R>(entries: Seq<(String, R)>, name: Seq<char>, i: int) -> bool {
    &&& 0 <= i < entries.len()
    &&& entries[i].0@ == name
    &&& forall|j: int| i < j < entries.len() ==> (#[trigger] entries[j]).0@ != name
}

/// A name is in the directory exactly when some entry has it, and the
/// directory then holds the last such entry.
pub proof fn lemma_directory_lookup<R>(entries: Seq<(String, R)>, name: Seq<char>)
    ensures
        directory(entries).contains_key(name) <==> exists|i: int|
            0 <= i < entries.len() && (#[trigger] entries[i]).0@ == name,
        forall|i: int|
            is_last_named(entries, name, i) ==> directory(entries)[name] == entries[i].1,
    decreases entries.len(),
{
    if entries.len() > 0 {
        let front = entries.drop_last();
        lemma_directory_lookup(front, name);
        assert forall|j: int| 0 <= j < front.len() implies front[j] == entries[j] by {}
        if entries.last().0@ != name {
            assert forall|i: int| is_last_named(entries, name, i) implies is_last_named(
                front,
                name,
                i,
            ) by {}
        }
    }
}

/// The place of the last entry named `name`, if there is one.
pub fn find_last<R>(entries: &Vec<(String, R)>, name: &str) -> (r: Option<usize>)
    ensures
        match r {
            Some(i) => is_last_named(entries@, name@, i as int),
            None => !directory(entries@).contains_key(name@),
        },
{
    let wanted = name.to_owned();
    let mut i: usize = entries.len();
    while i > 0
        invariant
            i <= entries.len(),
            wanted@ == name@,
            forall|j: int| i <= j < entries.len() ==> (#[trigger] entries@[j]).0@ != name@,
        decreases i,
    {
        i = i - 1;
        if entries[i].0 == wanted {
            return Some(i);
        }
    }
    proof {
        lemma_directory_lookup(entries@, name@);
    }
    None
}

/// Registers `entry` under `name`, in place of what was registered under
/// that name before, and hands that back.
pub fn register<R>(entries: &mut Vec<(String, R)>, name: &str, entry: R) -> (r: Option<R>)
    ensures
        directory(final(entries)@) == directory(old(entries)@).insert(name@, entry),
        r == if directory(old(entries)@).contains_key(name@) {
            Some(directory(old(entries)@)[name@])
        } else {
            None
        },
{
    let ghost before = entries@;
    let found = find_last(entries, name);
    let displaced = match found {
        Some(i) => {
            proof {
                lemma_directory_lookup(before, name@);
            }
            Some(entries.remove(i).1)
        },
        None => None,
    };
    let ghost between = entries@;
    entries.push((name.to_owned(), entry));
    proof {
        let after = entries@;
        assert(after.drop_last() == between);
        assert forall|x: Seq<char>| x != name@ implies (directory(between).contains_key(x)
            <==> directory(before).contains_key(x)) by {
            lemma_directory_lookup(before, x);
            lemma_directory_lookup(between, x);
            if directory(before).contains_key(x) {
                let j = choose|j: int| 0 <= j < before.len() && (#[trigger] before[j]).0@ == x;
                if let Some(i) = found {
                    if j < i {
                        assert(between[j] == before[j]);
                    } else {
                        assert(between[j - 1] == before[j]);
                    }
                }
            }
        }
        assert forall|x: Seq<char>| x != name@ && directory(before).contains_key(x) implies directory(
            between,
        )[x] == directory(before)[x] by {
            lemma_directory_lookup(before, x);
            lemma_directory_lookup(between, x);
            lemma_last_exists(before, x);
            let j = choose|j: int| is_last_named(before, x, j);
            if let Some(i) = found {
                let k = if j < i {
                    j
                } else {
                    j - 1
                };
                assert(is_last_named(between, x, k));
            }
        }
    }
    displaced
}

/// Where a name is in the directory, one entry is the last of that name.
pub proof fn lemma_last_exists<R>(entries: Seq<(String, R)>, name: Seq<char>)
    requires
        directory(entries).contains_key(name),
    ensures
        exists|i: int| is_last_named(entries, name, i),
    decreases entries.len(),
{
    if entries.len() > 0 {
        if entries.last().0@ == name {
            assert(is_last_named(entries, name, entries.len() - 1));
        } else {
            let front = entries.drop_last();
            lemma_last_exists(front, name);
            let i = choose|i: int| is_last_named(front, name, i);
            assert(is_last_named(entries, name, i)) by {
                assert forall|j: int| i < j < entries.len() implies (#[trigger] entries[j]).0@
                    != name by {
                    if j < front.len() {
                        assert(front[j] == entries[j]);
                    }
                }
            }
        }
    }
}

/// The entry registered under `name`.
pub fn lookup<'a, R>(entries: &'a Vec<(String, R)>, name: &str) -> (r: Option<&'a R>)
    ensures
        match r {
            Some(entry) => directory(entries@).contains_key(name@) && *entry == directory(
                entries@,
            )[name@],
            None => !directory(entries@).contains_key(name@),
        },
{
    match find_last(entries, name) {
        Some(i) => {
            proof {
                lemma_directory_lookup(entries@, name@);
            }
            Some(&entries[i].1)
        },
        None => None,
    }
}

} // verus!
