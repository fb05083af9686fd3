use vstd::prelude::*;

use crate::text::string_is;

verus! {

/// The value of the first entry at or after index `i` whose key is `u`.
pub open spec fn lookup_from<V>(ps: Seq<(Seq<char>, V)>, u: Seq<char>, i: int) -> Option<V>
    decreases ps.len() - i,
{
    if 0 <= i < ps.len() {
        if ps[i].0 == u {
            Some(ps[i].1)
        } else {
            lookup_from(ps, u, i + 1)
        }
    } else {
        None
    }
}

/// The index of the first entry at or after index `i` whose key is `u`.
pub open spec fn index_from<V>(ps: Seq<(Seq<char>, V)>, u: Seq<char>, i: int) -> Option<int>
    decreases ps.len() - i,
{
    if 0 <= i < ps.len() {
        if ps[i].0 == u {
            Some(i)
        } else {
            index_from(ps, u, i + 1)
        }
    } else {
        None
    }
}

/// No key occurs twice.
pub open spec fn distinct_keys<V>(ps: Seq<(Seq<char>, V)>) -> bool {
    forall|a: int, b: int| 0 <= a < b < ps.len() ==> (#[trigger] ps[a]).0 != (#[trigger] ps[b]).0
}

proof fn lemma_index_lookup<V>(ps: Seq<(Seq<char>, V)>, u: Seq<char>, i: int)
    requires
        0 <= i,
    ensures
        match index_from(ps, u, i) {
            Some(j) => i <= j < ps.len() && ps[j].0 == u && lookup_from(ps, u, i) == Some(ps[j].1),
            None => lookup_from(ps, u, i) is None && forall|k: int|
                i <= k < ps.len() ==> (#[trigger] ps[k]).0 != u,
        },
    decreases ps.len() - i,
{
    if i < ps.len() && ps[i].0 != u {
        lemma_index_lookup(ps, u, i + 1);
    }
}

proof fn lemma_lookup_update<V>(
    ps: Seq<(Seq<char>, V)>,
    u: Seq<char>,
    t: V,
    v: Seq<char>,
    j: int,
    i: int,
)
    requires
        0 <= i <= j,
        index_from(ps, u, i) == Some(j),
    ensures
        lookup_from(ps.update(j, (u, t)), v, i) == if v == u {
            Some(t)
        } else {
            lookup_from(ps, v, i)
        },
    decreases j - i,
{
    lemma_index_lookup(ps, u, i);
    assert(ps.update(j, (u, t))[i] == if i == j {
        (u, t)
    } else {
        ps[i]
    });
    if i < j {
        lemma_lookup_update(ps, u, t, v, j, i + 1);
    } else {
        lemma_lookup_past_update(ps, (u, t), v, j, j + 1);
    }
}

proof fn lemma_lookup_past_update<V>(
    ps: Seq<(Seq<char>, V)>,
    x: (Seq<char>, V),
    v: Seq<char>,
    j: int,
    i: int,
)
    requires
        0 <= j < i,
        j < ps.len(),
    ensures
        lookup_from(ps.update(j, x), v, i) == lookup_from(ps, v, i),
    decreases ps.len() - i,
{
    if i < ps.len() {
        assert(ps.update(j, x)[i] == ps[i]);
        lemma_lookup_past_update(ps, x, v, j, i + 1);
    }
}

proof fn lemma_lookup_push<V>(
    ps: Seq<(Seq<char>, V)>,
    u: Seq<char>,
    t: V,
    v: Seq<char>,
    i: int,
)
    requires
        0 <= i <= ps.len(),
        index_from(ps, u, i) is None,
    ensures
        lookup_from(ps.push((u, t)), v, i) == if v == u {
            Some(t)
        } else {
            lookup_from(ps, v, i)
        },
    decreases ps.len() - i,
{
    if i < ps.len() {
        assert(ps.push((u, t))[i] == ps[i]);
        lemma_lookup_push(ps, u, t, v, i + 1);
    } else {
        assert(ps.push((u, t))[i] == (u, t));
        assert(lookup_from(ps.push((u, t)), v, i + 1) is None);
    }
}

proof fn lemma_lookup_remove<V>(ps: Seq<(Seq<char>, V)>, u: Seq<char>, v: Seq<char>, j: int, i: int)
    requires
        0 <= i <= j,
        index_from(ps, u, i) == Some(j),
        distinct_keys(ps),
    ensures
        lookup_from(ps.remove(j), v, i) == if v == u {
            None
        } else {
            lookup_from(ps, v, i)
        },
    decreases ps.len() - i,
{
    lemma_index_lookup(ps, u, i);
    if i < j {
        lemma_lookup_remove(ps, u, v, j, i + 1);
    } else {
        lemma_lookup_after(ps, v, j);
        if v == u {
            assert forall|k: int| j + 1 <= k < ps.len() implies (#[trigger] ps[k]).0 != u by {
                assert(ps[j].0 != ps[k].0);
            }
            lemma_lookup_absent(ps.remove(j), u, j);
        }
    }
}

proof fn lemma_lookup_after<V>(ps: Seq<(Seq<char>, V)>, v: Seq<char>, j: int)
    requires
        0 <= j < ps.len(),
    ensures
        lookup_from(ps.remove(j), v, j) == lookup_from(ps, v, j + 1),
    decreases ps.len() - j,
{
    if j + 1 < ps.len() {
        assert(ps.remove(j)[j] == ps[j + 1]);
        if ps[j + 1].0 != v {
            lemma_lookup_shift(ps, v, j, j + 1);
        }
    }
}

proof fn lemma_lookup_shift<V>(ps: Seq<(Seq<char>, V)>, v: Seq<char>, j: int, i: int)
    requires
        0 <= j < i <= ps.len(),
    ensures
        lookup_from(ps.remove(j), v, i) == lookup_from(ps, v, i + 1),
    decreases ps.len() - i,
{
    if i + 1 < ps.len() {
        assert(ps.remove(j)[i] == ps[i + 1]);
        lemma_lookup_shift(ps, v, j, i + 1);
    }
}

proof fn lemma_lookup_absent<V>(ps: Seq<(Seq<char>, V)>, u: Seq<char>, i: int)
    requires
        0 <= i,
        forall|k: int| i <= k < ps.len() ==> (#[trigger] ps[k]).0 != u,
    ensures
        lookup_from(ps, u, i) is None,
    decreases ps.len() - i,
{
    if i < ps.len() {
        lemma_lookup_absent(ps, u, i + 1);
    }
}

/// A table from names to values: what `HashMap<String, V>` offers a program that inserts,
/// reads and removes by name, kept as a list in the order the names were first inserted.
pub struct Table<V: View> {
    docs: Vec<(String, V)>,
}

impl<V: View> Table<V> {
    /// The name and value of each entry, in the order the names were first inserted.
    pub closed spec fn pairs(&self) -> Seq<(Seq<char>, V::V)> {
        self.docs@.map_values(|p: (String, V)| (p.0@, p.1@))
    }

    /// No name twice.
    #[verifier::type_invariant]
    closed spec fn table_inv(&self) -> bool {
        distinct_keys(self.pairs())
    }

    pub fn new() -> (s: Self)
        ensures
            s@ == Map::<Seq<char>, V::V>::empty(),
    {
        let s = Table { docs: Vec::new() };
        assert(s@ =~= Map::<Seq<char>, V::V>::empty());
        s
    }

    fn find(&self, key: &str) -> (r: Option<usize>)
        ensures
            match r {
                Some(j) => j < self.docs@.len() && index_from(self.pairs(), key@, 0) == Some(
                    j as int,
                ),
                None => index_from(self.pairs(), key@, 0) is None,
            },
    {
        let ghost ps = self.pairs();
        let mut j: usize = 0;
        while j < self.docs.len()
            invariant
                j <= self.docs@.len(),
                ps == self.pairs(),
                index_from(ps, key@, j as int) == index_from(ps, key@, 0),
            decreases self.docs@.len() - j,
        {
            assert(ps[j as int] == (self.docs@[j as int].0@, self.docs@[j as int].1@));
            if string_is(self.docs[j].0.as_str(), key) {
                return Some(j);
            }
            j = j + 1;
        }
        None
    }

    /// The value under `key`, if there is one.
    pub fn get(&self, key: &str) -> (r: Option<&V>)
        ensures
            match r {
                Some(t) => self@.contains_key(key@) && self@[key@] == t@,
                None => !self@.contains_key(key@),
            },
    {
        proof {
            use_type_invariant(self);
            lemma_index_lookup(self.pairs(), key@, 0);
        }
        match self.find(key) {
            Some(j) => {
                assert(self.pairs()[j as int] == (self.docs@[j as int].0@, self.docs@[j as int].1@));
                Some(&self.docs[j].1)
            },
            None => None,
        }
    }

    /// Sets the value under `key`.
    pub fn insert(&mut self, key: String, value: V)
        ensures
            final(self)@ == old(self)@.insert(key@, value@),
    {
        proof {
            use_type_invariant(&*self);
        }
        let ghost ps = self.pairs();
        let ghost u = key@;
        let ghost t = value@;
        proof {
            lemma_index_lookup(ps, u, 0);
        }
        match self.find(key.as_str()) {
            Some(j) => {
                let mut docs = Vec::new();
                std::mem::swap(&mut docs, &mut self.docs);
                docs.set(j, (key, value));
                proof {
                    let nps = docs@.map_values(|p: (String, V)| (p.0@, p.1@));
                    assert(nps =~= ps.update(j as int, (u, t)));
                    assert forall|v: Seq<char>| #![auto]
                        lookup_from(nps, v, 0) == if v == u {
                            Some(t)
                        } else {
                            lookup_from(ps, v, 0)
                        } by {
                        lemma_lookup_update(ps, u, t, v, j as int, 0);
                    }
                    assert forall|a: int, b: int| 0 <= a < b < nps.len() implies (#[trigger] nps[a]).0
                        != (#[trigger] nps[b]).0 by {
                        if a != j && b != j {
                            assert(ps[a].0 != ps[b].0);
                        } else if a == j {
                            assert(ps[a].0 != ps[b].0);
                        } else {
                            assert(ps[a].0 != ps[b].0);
                        }
                    }
                }
                self.docs = docs;
            },
            None => {
                let mut docs = Vec::new();
                std::mem::swap(&mut docs, &mut self.docs);
                docs.push((key, value));
                proof {
                    let nps = docs@.map_values(|p: (String, V)| (p.0@, p.1@));
                    assert(nps =~= ps.push((u, t)));
                    assert forall|v: Seq<char>| #![auto]
                        lookup_from(nps, v, 0) == if v == u {
                            Some(t)
                        } else {
                            lookup_from(ps, v, 0)
                        } by {
                        lemma_lookup_push(ps, u, t, v, 0);
                    }
                    assert forall|a: int, b: int| 0 <= a < b < nps.len() implies (#[trigger] nps[a]).0
                        != (#[trigger] nps[b]).0 by {
                        if b < ps.len() {
                            assert(ps[a].0 != ps[b].0);
                        } else {
                            assert(ps[a].0 != u);
                        }
                    }
                }
                self.docs = docs;
            },
        }
        assert(self@ =~= old(self)@.insert(u, t));
    }

    /// Removes the entry under `key`, if there is one.
    pub fn remove(&mut self, key: &str)
        ensures
            final(self)@ == old(self)@.remove(key@),
    {
        proof {
            use_type_invariant(&*self);
        }
        let ghost ps = self.pairs();
        proof {
            lemma_index_lookup(ps, key@, 0);
        }
        match self.find(key) {
            Some(j) => {
                let mut docs = Vec::new();
                std::mem::swap(&mut docs, &mut self.docs);
                docs.remove(j);
                proof {
                    let nps = docs@.map_values(|p: (String, V)| (p.0@, p.1@));
                    assert(nps =~= ps.remove(j as int));
                    assert forall|v: Seq<char>| #![auto]
                        lookup_from(nps, v, 0) == if v == key@ {
                            None
                        } else {
                            lookup_from(ps, v, 0)
                        } by {
                        lemma_lookup_remove(ps, key@, v, j as int, 0);
                    }
                    assert forall|a: int, b: int| 0 <= a < b < nps.len() implies (#[trigger] nps[a]).0
                        != (#[trigger] nps[b]).0 by {
                        if b < j {
                            assert(ps[a].0 != ps[b].0);
                        } else if a < j {
                            assert(ps[a].0 != ps[b + 1].0);
                        } else {
                            assert(ps[a + 1].0 != ps[b + 1].0);
                        }
                    }
                }
                self.docs = docs;
            },
            None => {
                proof {
                    assert forall|v: Seq<char>| #![auto] v == key@ implies lookup_from(ps, v, 0) is None by {
                        lemma_lookup_absent(ps, v, 0);
                    }
                }
            },
        }
        assert(self@ =~= old(self)@.remove(key@));
    }
}

impl<V: View> View for Table<V> {
    type V = Map<Seq<char>, V::V>;

    /// Each name mapped to its value.
    closed spec fn view(&self) -> Map<Seq<char>, V::V> {
        Map::new(
            |u: Seq<char>| lookup_from(self.pairs(), u, 0) is Some,
            |u: Seq<char>| lookup_from(self.pairs(), u, 0)->0,
        )
    }
}

} // verus!
