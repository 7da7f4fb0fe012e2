use vstd::prelude::*;

verus! {

/// Abstract contents of a keyed table: pairs of a key and a process id.
pub type Entries = Seq<(Seq<char>, u32)>;

/// The table holds the pair `(k, v)`.
pub open spec fn has_entry(s: Entries, k: Seq<char>, v: u32) -> bool {
    exists|i: int| 0 <= i < s.len() && #[trigger] s[i] == (k, v)
}

/// The table holds some pair with key `k`.
pub open spec fn has_key(s: Entries, k: Seq<char>) -> bool {
    exists|i: int| 0 <= i < s.len() && #[trigger] s[i].0 == k
}

/// No key occurs twice.
pub open spec fn keys_unique(s: Entries) -> bool {
    forall|i: int, j: int| 0 <= i < s.len() && 0 <= j < s.len() && i != j ==> #[trigger] s[i].0 != #[trigger] s[j].0
}

/// The table holds exactly one pair with key `k`.
pub open spec fn exactly_one(s: Entries, k: Seq<char>) -> bool {
    exists|i: int|
        0 <= i < s.len() && #[trigger] s[i].0 == k && forall|j: int| 0 <= j < s.len() && #[trigger] s[j].0 == k ==> j == i
}

/// `new` is `old` with `k` bound to `v`: any earlier pair for `k` is gone and
/// every other pair is kept.
pub open spec fn put_post(old: Entries, new: Entries, k: Seq<char>, v: u32) -> bool {
    &&& keys_unique(new)
    &&& has_entry(new, k, v)
    &&& has_key(new, k)
    &&& forall|k2: Seq<char>, v2: u32| #[trigger] has_entry(new, k2, v2) ==> k2 == k || has_entry(old, k2, v2)
    &&& forall|k2: Seq<char>, v2: u32| k2 != k && #[trigger] has_entry(old, k2, v2) ==> has_entry(new, k2, v2)
}

/// `new` is `old` without any pair for key `k`, every other pair kept.
pub open spec fn remove_post(old: Entries, new: Entries, k: Seq<char>) -> bool {
    &&& keys_unique(new)
    &&& !has_key(new, k)
    &&& forall|k2: Seq<char>, v2: u32| #[trigger] has_entry(new, k2, v2) ==> k2 != k && has_entry(old, k2, v2)
    &&& forall|k2: Seq<char>, v2: u32| k2 != k && #[trigger] has_entry(old, k2, v2) ==> has_entry(new, k2, v2)
}

pub proof fn lemma_unique_has_entry(s: Entries, k: Seq<char>, v1: u32, v2: u32)
    requires
        keys_unique(s),
        has_entry(s, k, v1),
        has_entry(s, k, v2),
    ensures
        v1 == v2,
{
    let i = choose|i: int| 0 <= i < s.len() && s[i] == (k, v1);
    let j = choose|j: int| 0 <= j < s.len() && s[j] == (k, v2);
    assert(s[i].0 == s[j].0);
}

/// A table with unique keys holds exactly one pair for each key it holds.
pub proof fn lemma_unique_exactly_one(s: Entries, k: Seq<char>, v: u32)
    requires
        keys_unique(s),
        has_entry(s, k, v),
    ensures
        exactly_one(s, k),
{
    let i = choose|i: int| 0 <= i < s.len() && s[i] == (k, v);
    assert(s[i].0 == k);
}

/// A table from string keys to process ids with no key repeated, kept in
/// the order in which keys were first inserted.
pub struct KeyedTable {
    rows: Vec<(String, u32)>,
}

impl KeyedTable {
    pub closed spec fn view(&self) -> Entries {
        self.rows@.map_values(|e: (String, u32)| (e.0@, e.1))
    }

    pub open spec fn wf(&self) -> bool {
        keys_unique(self@)
    }

    pub fn new() -> (r: Self)
        ensures
            r.wf(),
            r@.len() == 0,
    {
        KeyedTable { rows: Vec::new() }
    }

    pub fn len(&self) -> (r: usize)
        ensures
            r == self@.len(),
    {
        self.rows.len()
    }

    /// Position of key `k`, if it is there.
    pub fn find(&self, k: &String) -> (r: Option<usize>)
        ensures
            r.is_none() <==> !has_key(self@, k@),
            r.is_some() ==> r.unwrap() < self@.len() && self@[r.unwrap() as int].0 == k@,
    {
        let mut i: usize = 0;
        while i < self.rows.len()
            invariant
                i <= self.rows@.len(),
                forall|j: int| 0 <= j < i ==> #[trigger] self@[j].0 != k@,
            decreases self.rows@.len() - i,
        {
            if self.rows[i].0 == *k {
                assert(self@[i as int].0 == k@);
                return Some(i);
            }
            i = i + 1;
        }
        proof {
            if has_key(self@, k@) {
                let j = choose|j: int| 0 <= j < self@.len() && #[trigger] self@[j].0 == k@;
                assert(self@[j].0 != k@);
            }
        }
        None
    }

    /// The pair at position `i`.
    pub fn get(&self, i: usize) -> (r: (String, u32))
        requires
            i < self@.len(),
        ensures
            (r.0@, r.1) == self@[i as int],
    {
        (self.rows[i].0.clone(), self.rows[i].1)
    }

    /// The value stored under `k`.
    pub fn lookup(&self, k: &String) -> (r: Option<u32>)
        requires
            self.wf(),
        ensures
            r.is_none() <==> !has_key(self@, k@),
            r.is_some() ==> has_entry(self@, k@, r.unwrap()),
    {
        match self.find(k) {
            Some(i) => {
                assert(self@[i as int] == (k@, self.rows@[i as int].1));
                Some(self.rows[i].1)
            },
            None => None,
        }
    }

    /// Binds `k` to `v`, replacing an earlier binding of `k` in place.
    pub fn put(&mut self, k: &String, v: u32)
        requires
            old(self).wf(),
        ensures
            final(self).wf(),
            put_post(old(self)@, final(self)@, k@, v),
    {
        let ghost s0 = self@;
        match self.find(k) {
            Some(i) => {
                self.rows.set(i, (k.clone(), v));
                proof {
                    assert(self@ =~= s0.update(i as int, (k@, v)));
                    assert(self@[i as int] == (k@, v));
                    assert(self@[i as int].0 == k@);
                    assert forall|k2: Seq<char>, v2: u32| #[trigger] has_entry(self@, k2, v2) implies k2 == k@ || has_entry(s0, k2, v2) by {
                        let j = choose|j: int| 0 <= j < self@.len() && self@[j] == (k2, v2);
                        if j != i { assert(s0[j] == (k2, v2)); }
                    }
                    assert forall|k2: Seq<char>, v2: u32| k2 != k@ && #[trigger] has_entry(s0, k2, v2) implies has_entry(self@, k2, v2) by {
                        let j = choose|j: int| 0 <= j < s0.len() && s0[j] == (k2, v2);
                        assert(j != i);
                        assert(self@[j] == (k2, v2));
                    }
                }
            },
            None => {
                self.rows.push((k.clone(), v));
                proof {
                    assert(self@ =~= s0.push((k@, v)));
                    assert(self@[s0.len() as int] == (k@, v));
                    assert(self@[s0.len() as int].0 == k@);
                    assert forall|k2: Seq<char>, v2: u32| #[trigger] has_entry(self@, k2, v2) implies k2 == k@ || has_entry(s0, k2, v2) by {
                        let j = choose|j: int| 0 <= j < self@.len() && self@[j] == (k2, v2);
                        if j < s0.len() { assert(s0[j] == (k2, v2)); }
                    }
                    assert forall|k2: Seq<char>, v2: u32| k2 != k@ && #[trigger] has_entry(s0, k2, v2) implies has_entry(self@, k2, v2) by {
                        let j = choose|j: int| 0 <= j < s0.len() && s0[j] == (k2, v2);
                        assert(self@[j] == (k2, v2));
                    }
                    assert forall|a: int, b: int| 0 <= a < self@.len() && 0 <= b < self@.len() && a != b implies #[trigger] self@[a].0 != #[trigger] self@[b].0 by {
                        if a == s0.len() { assert(s0[b].0 == self@[b].0); }
                        if b == s0.len() { assert(s0[a].0 == self@[a].0); }
                    }
                }
            },
        }
    }

    /// Removes the pair at position `i`, handing it back.
    pub fn remove_at(&mut self, i: usize) -> (r: (String, u32))
        requires
            old(self).wf(),
            i < old(self)@.len(),
        ensures
            final(self).wf(),
            remove_post(old(self)@, final(self)@, old(self)@[i as int].0),
            (r.0@, r.1) == old(self)@[i as int],
    {
        let ghost s0 = self@;
        let ghost k = s0[i as int].0;
        let r = self.rows.remove(i);
        proof {
            assert(self@ =~= s0.remove(i as int));
            assert forall|k2: Seq<char>, v2: u32| #[trigger] has_entry(self@, k2, v2) implies k2 != k && has_entry(s0, k2, v2) by {
                let j = choose|j: int| 0 <= j < self@.len() && self@[j] == (k2, v2);
                if j < i {
                    assert(s0[j] == (k2, v2));
                    assert(s0[j].0 != s0[i as int].0);
                } else {
                    assert(s0[j + 1] == (k2, v2));
                    assert(s0[j + 1].0 != s0[i as int].0);
                }
            }
            assert forall|k2: Seq<char>, v2: u32| k2 != k && #[trigger] has_entry(s0, k2, v2) implies has_entry(self@, k2, v2) by {
                let j = choose|j: int| 0 <= j < s0.len() && s0[j] == (k2, v2);
                assert(j != i);
                if j < i { assert(self@[j] == (k2, v2)); } else { assert(self@[j - 1] == (k2, v2)); }
            }
            if has_key(self@, k) {
                let j = choose|j: int| 0 <= j < self@.len() && #[trigger] self@[j].0 == k;
                if j < i { assert(s0[j].0 == k); } else { assert(s0[j + 1].0 == k); }
            }
        }
        r
    }

    /// Empties the table, handing back every value in table order.
    pub fn drain_values(&mut self) -> (r: Vec<u32>)
        ensures
            final(self).wf(),
            final(self)@.len() == 0,
            r@ == old(self)@.map_values(|e: (Seq<char>, u32)| e.1),
    {
        let mut out: Vec<u32> = Vec::new();
        let mut i: usize = 0;
        while i < self.rows.len()
            invariant
                i <= self.rows@.len(),
                out@ == self@.subrange(0, i as int).map_values(|e: (Seq<char>, u32)| e.1),
            decreases self.rows@.len() - i,
        {
            out.push(self.rows[i].1);
            i = i + 1;
            assert(out@ =~= self@.subrange(0, i as int).map_values(|e: (Seq<char>, u32)| e.1));
        }
        assert(self@.subrange(0, i as int) =~= self@);
        self.rows = Vec::new();
        assert(self@ =~= Seq::<(Seq<char>, u32)>::empty());
        out
    }
}

} // verus!
