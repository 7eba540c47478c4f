use vstd::prelude::*;

verus! {

/// The book of continuations of one interpreter: which identifiers have been
/// taken, and which of them still wait for a reply.
///
/// The interpreter numbers its suspensions. The book takes an identifier
/// only where it is above every one taken before, so that they go up and none
/// comes twice; the first is 1 or more. The suspended scripts themselves stay
/// inside the interpreter, which keeps them under the same identifiers.
pub struct Continuations {
    next: i64,
    waiting: Vec<i64>,
}

impl Continuations {
    /// The waiting identifiers are listed in increasing order, and each of
    /// them was taken before.
    #[verifier::type_invariant]
    pub closed spec fn wf(self) -> bool {
        &&& 1 <= self.next
        &&& forall|i: int, j: int|
            0 <= i < j < self.waiting@.len() ==> self.waiting@[i] < self.waiting@[j]
        &&& forall|i: int|
            0 <= i < self.waiting@.len() ==> 1 <= #[trigger] self.waiting@[i] < self.next
    }

    /// The least identifier that the next suspension can bring.
    pub closed spec fn next_id(self) -> int {
        self.next as int
    }

    /// The identifiers that wait for a reply.
    pub closed spec fn waiting(self) -> Set<int> {
        Set::new(|id: int| exists|i: int| 0 <= i < self.waiting@.len() && self.waiting@[i] == id)
    }

    /// Identifiers start at 1, and what waits was taken before.
    pub proof fn lemma_bounds(self)
        requires
            self.wf(),
        ensures
            1 <= self.next_id() <= i64::MAX,
            forall|id: int| self.waiting().contains(id) ==> 1 <= id < self.next_id(),
    {
    }

    /// A book in which nothing waits and nothing was taken.
    pub fn new() -> (r: Continuations)
        ensures
            r.next_id() == 1,
            r.waiting() == Set::<int>::empty(),
    {
        let r = Continuations { next: 1, waiting: Vec::new() };
        r
    }

    /// Takes `id` as the identifier of a new suspension and notes it as
    /// waiting, where it is above every identifier taken so far and below the
    /// largest integer. Says whether it did; where it did not, nothing
    /// changes.
    pub fn enrol(&mut self, id: i64) -> (r: bool)
        ensures
            r == (old(self).next_id() <= id < i64::MAX),
            r ==> {
                &&& final(self).next_id() == id + 1
                &&& final(self).waiting() == old(self).waiting().insert(id as int)
                &&& !old(self).waiting().contains(id as int)
            },
            !r ==> {
                &&& final(self).next_id() == old(self).next_id()
                &&& final(self).waiting() == old(self).waiting()
            },
    {
        proof {
            use_type_invariant(&*self);
        }
        if id < self.next || id == i64::MAX {
            return false;
        }
        let ghost before = self.waiting@;
        let mut waiting: Vec<i64> = Vec::new();
        core::mem::swap(&mut waiting, &mut self.waiting);
        waiting.push(id);
        *self = Continuations { next: id + 1, waiting };
        proof {
            assert forall|x: int|
                final(self).waiting().contains(x) <==> old(self).waiting().insert(
                    id as int,
                ).contains(x) by {
                if old(self).waiting().contains(x) {
                    let i = choose|i: int| 0 <= i < before.len() && before[i] == x;
                    assert(self.waiting@[i] == x);
                }
                if x == id {
                    assert(self.waiting@[before.len() as int] == x);
                }
            }
        }
        true
    }

    /// The least identifier that the next suspension can bring.
    pub fn upcoming(&self) -> (r: i64)
        ensures
            r == self.next_id(),
    {
        self.next
    }

    /// Where `id` stands among the waiting identifiers.
    fn position(&self, id: i64) -> (r: Option<usize>)
        ensures
            match r {
                Some(i) => i < self.waiting@.len() && self.waiting@[i as int] == id,
                None => forall|j: int| 0 <= j < self.waiting@.len() ==> self.waiting@[j] != id,
            },
    {
        let mut i: usize = 0;
        while i < self.waiting.len()
            invariant
                i <= self.waiting.len(),
                forall|j: int| 0 <= j < i ==> self.waiting@[j] != id,
            decreases self.waiting.len() - i,
        {
            if self.waiting[i] == id {
                return Some(i);
            }
            i = i + 1;
        }
        None
    }

    /// Whether `id` waits for a reply.
    pub fn is_waiting(&self, id: i64) -> (r: bool)
        ensures
            r == self.waiting().contains(id as int),
            r ==> 1 <= id < self.next_id(),
    {
        proof {
            use_type_invariant(self);
        }
        self.position(id).is_some()
    }

    /// Strikes `id` from the waiting identifiers. Says whether it was among
    /// them; where it was not, nothing changes.
    pub fn complete(&mut self, id: i64) -> (r: bool)
        ensures
            r == old(self).waiting().contains(id as int),
            final(self).waiting() == old(self).waiting().remove(id as int),
            final(self).next_id() == old(self).next_id(),
    {
        proof {
            use_type_invariant(&*self);
        }
        let ghost before = self.waiting@;
        match self.position(id) {
            Some(i) => {
                let mut waiting: Vec<i64> = Vec::new();
                core::mem::swap(&mut waiting, &mut self.waiting);
                waiting.remove(i);
                let ghost after = waiting@;
                *self = Continuations { next: self.next, waiting };
                proof {
                    assert forall|x: int|
                        final(self).waiting().contains(x) <==> old(self).waiting().remove(
                            id as int,
                        ).contains(x) by {
                        if old(self).waiting().contains(x) && x != id {
                            let k = choose|k: int| 0 <= k < before.len() && before[k] == x;
                            if k < i {
                                assert(after[k] == x);
                            } else {
                                assert(after[k - 1] == x);
                            }
                        }
                    }
                }
                true
            },
            None => {
                false
            },
        }
    }

    /// How many identifiers wait.
    pub fn len(&self) -> (r: usize)
        ensures
            r == self.waiting().len(),
            self.waiting().finite(),
    {
        proof {
            use_type_invariant(self);
            Self::lemma_waiting_count(self.waiting@);
        }
        self.waiting.len()
    }

    /// A list without repetition has as many members as places.
    proof fn lemma_waiting_count(ids: Seq<i64>)
        requires
            forall|i: int, j: int| 0 <= i < j < ids.len() ==> ids[i] < ids[j],
        ensures
            Set::new(|id: int| exists|i: int| 0 <= i < ids.len() && ids[i] == id).finite(),
            Set::new(|id: int| exists|i: int| 0 <= i < ids.len() && ids[i] == id).len()
                == ids.len(),
        decreases ids.len(),
    {
        let all = Set::new(|id: int| exists|i: int| 0 <= i < ids.len() && ids[i] == id);
        if ids.len() == 0 {
            assert(all =~= Set::<int>::empty());
        } else {
            let front = ids.drop_last();
            let rest = Set::new(|id: int| exists|i: int| 0 <= i < front.len() && front[i] == id);
            Self::lemma_waiting_count(front);
            let last = ids.last() as int;
            assert forall|x: int| all.contains(x) <==> rest.insert(last).contains(x) by {
                if all.contains(x) {
                    let i = choose|i: int| 0 <= i < ids.len() && ids[i] == x;
                    if i < front.len() {
                        assert(front[i] == x);
                    }
                }
            }
            assert(all =~= rest.insert(last));
            assert(!rest.contains(last));
        }
    }
}

} // verus!
