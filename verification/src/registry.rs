//! A name-keyed store with last-write-wins insertion, used by the shader
//! and resource registries. Viewed as a map from name to stored value.

use vstd::prelude::*;

verus! {

/// The map a sequence of name/value pairs denotes; later pairs win.
pub open spec fn spec_map_of<V>(s: Seq<(String, V)>) -> Map<Seq<char>, V>
    decreases s.len(),
{
    if s.len() == 0 {
        Map::empty()
    } else {
        spec_map_of(s.drop_last()).insert(s.last().0@, s.last().1)
    }
}

/// No two pairs share a name.
pub open spec fn unique_keys<V>(s: Seq<(String, V)>) -> bool {
    forall|i: int, j: int| 0 <= i < j < s.len() ==> s[i].0@ != s[j].0@
}

/// The denoted map contains a key exactly when some pair carries it.
pub proof fn lemma_map_of_dom<V>(s: Seq<(String, V)>, k: Seq<char>)
    ensures
        spec_map_of(s).contains_key(k) <==> exists|i: int| 0 <= i < s.len() && s[i].0@ == k,
    decreases s.len(),
{
    if s.len() > 0 {
        lemma_map_of_dom(s.drop_last(), k);
        if spec_map_of(s).contains_key(k) {
            if s.last().0@ != k {
                let i = choose|i: int| 0 <= i < s.drop_last().len() && s.drop_last()[i].0@ == k;
                assert(s[i].0@ == k);
            } else {
                assert(s[s.len() - 1].0@ == k);
            }
        }
        if exists|i: int| 0 <= i < s.len() && s[i].0@ == k {
            let i = choose|i: int| 0 <= i < s.len() && s[i].0@ == k;
            if i < s.len() - 1 {
                assert(s.drop_last()[i].0@ == k);
            }
        }
    }
}

/// With unique keys, the denoted map sends each pair's name to its value.
pub proof fn lemma_map_of_get<V>(s: Seq<(String, V)>, i: int)
    requires
        unique_keys(s),
        0 <= i < s.len(),
    ensures
        spec_map_of(s).contains_key(s[i].0@),
        spec_map_of(s)[s[i].0@] == s[i].1,
    decreases s.len(),
{
    if i == s.len() - 1 {
        assert(spec_map_of(s) == spec_map_of(s.drop_last()).insert(s.last().0@, s.last().1));
    } else {
        assert(unique_keys(s.drop_last()));
        assert(s.drop_last()[i] == s[i]);
        lemma_map_of_get(s.drop_last(), i);
        assert(s[i].0@ != s.last().0@);
    }
}

/// Replacing the value at position `i` updates the denoted map at that
/// pair's name, when keys are unique.
pub proof fn lemma_map_of_update<V>(s: Seq<(String, V)>, i: int, p: (String, V))
    requires
        unique_keys(s),
        0 <= i < s.len(),
        p.0@ == s[i].0@,
    ensures
        spec_map_of(s.update(i, p)) =~= spec_map_of(s).insert(p.0@, p.1),
    decreases s.len(),
{
    let s2 = s.update(i, p);
    if i == s.len() - 1 {
        assert(s2.drop_last() =~= s.drop_last());
        assert(s2.last() == p);
    } else {
        assert(unique_keys(s.drop_last()));
        assert(s.drop_last()[i] == s[i]);
        lemma_map_of_update(s.drop_last(), i, p);
        assert(s2.drop_last() =~= s.drop_last().update(i, p));
        assert(s2.last() == s.last());
        assert(s[i].0@ != s.last().0@);
        assert(spec_map_of(s2) =~= spec_map_of(s.drop_last().update(i, p)).insert(
            s.last().0@,
            s.last().1,
        ));
    }
}

/// Appending a pair with a fresh name updates the denoted map at that name.
pub proof fn lemma_map_of_push<V>(s: Seq<(String, V)>, p: (String, V))
    ensures
        spec_map_of(s.push(p)) =~= spec_map_of(s).insert(p.0@, p.1),
{
    assert(s.push(p).drop_last() =~= s);
    assert(s.push(p).last() == p);
}

/// A name-keyed store; inserting under an existing name replaces the old
/// value (last write wins).
#[derive(Debug)]
pub struct NamedStore<V> {
    pub entries: Vec<(String, V)>,
}

impl<V> View for NamedStore<V> {
    type V = Map<Seq<char>, V>;

    open spec fn view(&self) -> Map<Seq<char>, V> {
        spec_map_of(self.entries@)
    }
}

impl<V> NamedStore<V> {
    /// Well-formedness: names are unique, so lookups are unambiguous.
    pub open spec fn wf(&self) -> bool {
        unique_keys(self.entries@)
    }

    /// An empty store.
    pub fn new() -> (r: Self)
        ensures
            r@ =~= Map::<Seq<char>, V>::empty(),
            r.wf(),
    {
        NamedStore { entries: Vec::new() }
    }

    /// The position of `name` among the entries, if present.
    fn position(&self, name: &str) -> (r: Option<usize>)
        ensures
            match r {
                Some(i) => 0 <= i < self.entries@.len() && self.entries@[i as int].0@ == name@,
                None => forall|i: int|
                    0 <= i < self.entries@.len() ==> self.entries@[i].0@ != name@,
            },
    {
        let key: String = name.to_owned();
        let n = self.entries.len();
        let mut i: usize = 0;
        while i < n
            invariant
                n == self.entries@.len(),
                0 <= i <= n,
                key@ == name@,
                forall|j: int| 0 <= j < i ==> self.entries@[j].0@ != name@,
            decreases n - i,
        {
            if self.entries[i].0 == key {
                return Some(i);
            }
            i = i + 1;
        }
        None
    }

    /// Whether `name` is present.
    pub fn contains(&self, name: &str) -> (r: bool)
        ensures
            r == self@.contains_key(name@),
    {
        proof {
            lemma_map_of_dom(self.entries@, name@);
        }
        match self.position(name) {
            Some(_) => true,
            None => false,
        }
    }

    /// Look up the value stored under `name`.
    pub fn get(&self, name: &str) -> (r: Option<&V>)
        requires
            self.wf(),
        ensures
            match r {
                Some(v) => self@.contains_key(name@) && *v == self@[name@],
                None => !self@.contains_key(name@),
            },
    {
        proof {
            lemma_map_of_dom(self.entries@, name@);
        }
        match self.position(name) {
            Some(i) => {
                proof {
                    lemma_map_of_get(self.entries@, i as int);
                }
                Some(&self.entries[i].1)
            },
            None => None,
        }
    }

    /// Store `value` under `name`, replacing any previous value.
    pub fn insert(&mut self, name: &str, value: V)
        requires
            old(self).wf(),
        ensures
            final(self).wf(),
            final(self)@ =~= old(self)@.insert(name@, value),
    {
        let key: String = name.to_owned();
        match self.position(name) {
            Some(i) => {
                proof {
                    lemma_map_of_update(self.entries@, i as int, (key, value));
                }
                self.entries[i] = (key, value);
                proof {
                    assert forall|a: int, b: int|
                        0 <= a < b < self.entries@.len() implies self.entries@[a].0@
                        != self.entries@[b].0@ by {
                        assert(old(self).entries@[a].0@ != old(self).entries@[b].0@);
                    }
                }
            },
            None => {
                proof {
                    lemma_map_of_push(self.entries@, (key, value));
                }
                self.entries.push((key, value));
                proof {
                    assert forall|a: int, b: int|
                        0 <= a < b < self.entries@.len() implies self.entries@[a].0@
                        != self.entries@[b].0@ by {
                        if b < self.entries@.len() - 1 {
                            assert(old(self).entries@[a].0@ != old(self).entries@[b].0@);
                        } else {
                            assert(old(self).entries@[a].0@ != name@);
                        }
                    }
                }
            },
        }
    }

    /// The number of stored entries.
    pub fn len(&self) -> (r: usize)
        ensures
            r == self.entries@.len(),
    {
        self.entries.len()
    }
}

} // verus!
