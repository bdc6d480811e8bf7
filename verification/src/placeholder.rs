//! Named substitution values for notifications.
//!
//! A [`PlaceholderMap`] carries the key/value context handed to a triggered
//! action. Its one non-trivial operation is the left-biased [`merge`]: keys
//! already present in the target are never overwritten, so caller-supplied
//! context always takes precedence over alarm-level defaults.
//!
//! [`merge`]: PlaceholderMap::merge

use vstd::prelude::*;

verus! {

/// Relies on str's PartialEq: two string slices are equal exactly when their
/// character sequences are.
#[verifier::external_body]
fn str_eq(a: &str, b: &str) -> (r: bool)
    ensures
        r == (a@ == b@),
{
    a == b
}

/// No two entries share a key.
spec fn keys_unique(s: Seq<(String, String)>) -> bool {
    forall|i: int, j: int| 0 <= i < j < s.len() ==> s[i].0@ != s[j].0@
}

/// The mathematical map an entry sequence denotes (later entries would win).
spec fn map_of(s: Seq<(String, String)>) -> Map<Seq<char>, Seq<char>>
    decreases s.len(),
{
    if s.len() == 0 {
        Map::empty()
    } else {
        map_of(s.drop_last()).insert(s.last().0@, s.last().1@)
    }
}

proof fn lemma_map_of_contains(s: Seq<(String, String)>, k: Seq<char>)
    ensures
        map_of(s).contains_key(k) <==> exists|i: int| 0 <= i < s.len() && s[i].0@ == k,
    decreases s.len(),
{
    if s.len() > 0 {
        lemma_map_of_contains(s.drop_last(), k);
        if s.last().0@ == k {
            assert(s[s.len() - 1].0@ == k);
        } else if map_of(s).contains_key(k) {
            let i = choose|i: int| 0 <= i < s.drop_last().len() && s.drop_last()[i].0@ == k;
            assert(s[i].0@ == k);
        } else if exists|i: int| 0 <= i < s.len() && s[i].0@ == k {
            let i = choose|i: int| 0 <= i < s.len() && s[i].0@ == k;
            assert(s.drop_last()[i].0@ == k);
        }
    }
}

proof fn lemma_map_of_index(s: Seq<(String, String)>, i: int)
    requires
        keys_unique(s),
        0 <= i < s.len(),
    ensures
        map_of(s).contains_key(s[i].0@),
        map_of(s)[s[i].0@] == s[i].1@,
    decreases s.len(),
{
    if i == s.len() - 1 {
    } else {
        assert(s.drop_last()[i] == s[i]);
        lemma_map_of_index(s.drop_last(), i);
        assert(s[i].0@ != s.last().0@);
    }
}

proof fn lemma_map_of_len(s: Seq<(String, String)>)
    requires
        keys_unique(s),
    ensures
        map_of(s).dom().finite(),
        map_of(s).dom().len() == s.len(),
    decreases s.len(),
{
    broadcast use vstd::set::axiom_set_insert_len;

    if s.len() > 0 {
        lemma_map_of_len(s.drop_last());
        lemma_map_of_contains(s.drop_last(), s.last().0@);
        assert(forall|i: int|
            0 <= i < s.drop_last().len() ==> s.drop_last()[i].0@ != s.last().0@);
        assert(!map_of(s.drop_last()).contains_key(s.last().0@));
    }
}

proof fn lemma_map_of_remove(s: Seq<(String, String)>, i: int)
    requires
        keys_unique(s),
        0 <= i < s.len(),
    ensures
        keys_unique(s.remove(i)),
        map_of(s.remove(i)) == map_of(s).remove(s[i].0@),
    decreases s.len(),
{
    if i == s.len() - 1 {
        assert(s.remove(i) =~= s.drop_last());
        lemma_map_of_contains(s.drop_last(), s.last().0@);
        assert(forall|j: int|
            0 <= j < s.drop_last().len() ==> s.drop_last()[j].0@ != s.last().0@);
        assert(!map_of(s.drop_last()).contains_key(s.last().0@));
        assert(map_of(s.drop_last()).insert(s.last().0@, s.last().1@).remove(s[i].0@)
            =~= map_of(s.drop_last()));
    } else {
        let dl = s.drop_last();
        lemma_map_of_remove(dl, i);
        assert(s.remove(i).drop_last() =~= dl.remove(i));
        assert(s.remove(i).last() == s.last());
        assert(s.remove(i).len() == s.len() - 1);
        assert(map_of(s.remove(i))
            == map_of(dl.remove(i)).insert(s.last().0@, s.last().1@));
        assert(dl[i] == s[i]);
        assert(s[i].0@ != s.last().0@);
        assert(map_of(dl).remove(s[i].0@).insert(s.last().0@, s.last().1@)
            =~= map_of(dl).insert(s.last().0@, s.last().1@).remove(s[i].0@));
    }
}

/// The substitution context handed to a triggered action: a map from
/// placeholder names to the values inserted for them.
pub struct PlaceholderMap {
    entries: Vec<(String, String)>,
}

impl View for PlaceholderMap {
    type V = Map<Seq<char>, Seq<char>>;

    closed spec fn view(&self) -> Map<Seq<char>, Seq<char>> {
        map_of(self.entries@)
    }
}

impl PlaceholderMap {
    /// Internal invariant: no key is stored twice.
    pub closed spec fn wf(self) -> bool {
        keys_unique(self.entries@)
    }

    /// An empty context.
    pub fn new() -> (r: PlaceholderMap)
        ensures
            r.wf(),
            r@ == Map::<Seq<char>, Seq<char>>::empty(),
    {
        PlaceholderMap { entries: Vec::new() }
    }

    /// How many placeholders are set.
    pub fn len(&self) -> (r: usize)
        requires
            self.wf(),
        ensures
            r == self@.dom().len(),
    {
        proof {
            lemma_map_of_len(self.entries@);
        }
        self.entries.len()
    }

    fn position(&self, key: &str) -> (r: Option<usize>)
        ensures
            match r {
                Some(i) => i < self.entries@.len() && self.entries@[i as int].0@ == key@,
                None => forall|i: int|
                    0 <= i < self.entries@.len() ==> self.entries@[i].0@ != key@,
            },
    {
        let mut i: usize = 0;
        while i < self.entries.len()
            invariant
                i <= self.entries@.len(),
                forall|j: int| 0 <= j < i ==> self.entries@[j].0@ != key@,
            decreases self.entries@.len() - i,
        {
            if str_eq(self.entries[i].0.as_str(), key) {
                return Some(i);
            }
            i = i + 1;
        }
        None
    }

    /// Whether `key` is set.
    pub fn contains_key(&self, key: &str) -> (r: bool)
        ensures
            r == self@.contains_key(key@),
    {
        proof {
            lemma_map_of_contains(self.entries@, key@);
        }
        match self.position(key) {
            Some(_) => true,
            None => false,
        }
    }

    /// The value set for `key`, if any.
    pub fn get(&self, key: &str) -> (r: Option<&String>)
        requires
            self.wf(),
        ensures
            match r {
                Some(v) => self@.contains_key(key@) && v@ == self@[key@],
                None => !self@.contains_key(key@),
            },
    {
        proof {
            lemma_map_of_contains(self.entries@, key@);
        }
        match self.position(key) {
            Some(i) => {
                proof {
                    lemma_map_of_index(self.entries@, i as int);
                }
                Some(&self.entries[i].1)
            },
            None => None,
        }
    }

    /// Sets `key` to `value`, replacing any previous value.
    pub fn insert(&mut self, key: String, value: String)
        requires
            old(self).wf(),
        ensures
            final(self).wf(),
            final(self)@ == old(self)@.insert(key@, value@),
    {
        let ghost s0 = self.entries@;
        match self.position(key.as_str()) {
            Some(i) => {
                proof {
                    lemma_map_of_remove(s0, i as int);
                }
                self.entries.remove(i);
                let ghost s1 = self.entries@;
                self.entries.push((key, value));
                proof {
                    assert(self.entries@.drop_last() =~= s1);
                    assert(forall|a: int, b: int|
                        0 <= a < b < s1.len() ==> s1[a].0@ != s1[b].0@);
                    assert forall|j: int| 0 <= j < s1.len() implies s1[j].0@ != key@ by {
                        lemma_map_of_index(s1, j);
                        assert(!map_of(s1).contains_key(key@));
                    }
                    assert(map_of(self.entries@)
                        =~= map_of(s0).remove(key@).insert(key@, value@));
                    assert(map_of(s0).remove(key@).insert(key@, value@)
                        =~= map_of(s0).insert(key@, value@));
                }
            },
            None => {
                self.entries.push((key, value));
                proof {
                    assert(self.entries@.drop_last() =~= s0);
                }
            },
        }
    }

    /// Left-biased merge: copies every placeholder of `source` that is not
    /// already set, and never overwrites one that is.
    pub fn merge(&mut self, source: &PlaceholderMap)
        requires
            old(self).wf(),
            source.wf(),
        ensures
            final(self).wf(),
            final(self)@ == source@.union_prefer_right(old(self)@),
    {
        let ghost m0 = old(self)@;
        let ghost src = source.entries@;
        let mut j: usize = 0;
        while j < source.entries.len()
            invariant
                j <= src.len(),
                source.wf(),
                source.entries@ == src,
                self.wf(),
                self@ =~= map_of(src.take(j as int)).union_prefer_right(m0),
            decreases src.len() - j,
        {
            let ghost pre = self@;
            let ghost prefix = src.take(j as int);
            proof {
                assert(src.take(j + 1).drop_last() =~= prefix);
                assert(src.take(j + 1).last() == src[j as int]);
                lemma_map_of_contains(prefix, src[j as int].0@);
            }
            let key_present = self.contains_key(source.entries[j].0.as_str());
            if !key_present {
                let k = source.entries[j].0.clone();
                let v = source.entries[j].1.clone();
                self.insert(k, v);
                proof {
                    assert(!m0.contains_key(src[j as int].0@));
                    assert(self@ =~= map_of(src.take(j + 1)).union_prefer_right(m0));
                }
            } else {
                proof {
                    // A key that is already set either came from the target
                    // itself, or from an earlier entry of `source`, which the
                    // uniqueness invariant of `source` rules out.
                    if !m0.contains_key(src[j as int].0@) {
                        let i = choose|i: int|
                            0 <= i < prefix.len() && prefix[i].0@ == src[j as int].0@;
                        assert(src[i].0@ == src[j as int].0@);
                        assert(false);
                    }
                    assert(self@ =~= map_of(src.take(j + 1)).union_prefer_right(m0));
                }
            }
            j = j + 1;
        }
        proof {
            assert(src.take(src.len() as int) =~= src);
        }
    }

    /// The stored pairs, for callers that hand the context on to an action.
    pub fn pairs(&self) -> (r: &Vec<(String, String)>)
        requires
            self.wf(),
        ensures
            r@.len() == self@.dom().len(),
            forall|i: int|
                0 <= i < r@.len() ==> self@.contains_key(#[trigger] r@[i].0@)
                    && self@[r@[i].0@] == r@[i].1@,
    {
        proof {
            lemma_map_of_len(self.entries@);
            assert forall|i: int| 0 <= i < self.entries@.len()
                implies self@.contains_key(#[trigger] self.entries@[i].0@)
                    && self@[self.entries@[i].0@] == self.entries@[i].1@ by {
                lemma_map_of_index(self.entries@, i);
            }
        }
        &self.entries
    }
}

} // verus!
