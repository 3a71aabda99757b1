use vstd::prelude::*;

verus! {

/// The map described by a sequence of key/value entries, where a later entry
/// for the same key overrides an earlier one.
spec fn map_of_entries(s: Seq<(String, String)>) -> Map<Seq<char>, Seq<char>>
    decreases s.len(),
{
    if s.len() == 0 {
        Map::empty()
    } else {
        map_of_entries(s.drop_last()).insert(s.last().0@, s.last().1@)
    }
}

/// What a lookup of `key` against map `m` yields: the bound value when the
/// key is present, absence otherwise. Absence of a key is not an error.
pub open spec fn map_get(m: Map<Seq<char>, Seq<char>>, key: Seq<char>) -> Option<Seq<char>> {
    if m.contains_key(key) {
        Some(m[key])
    } else {
        None
    }
}

/// In-memory model of a resource-database snapshot: string keys bound to
/// string values, queried one key at a time. A snapshot owns plain copies of
/// its data, so nothing read from it outlives anything else.
pub struct Database {
    entries: Vec<(String, String)>,
}

impl View for Database {
    type V = Map<Seq<char>, Seq<char>>;

    closed spec fn view(&self) -> Map<Seq<char>, Seq<char>> {
        map_of_entries(self.entries@)
    }
}

impl Database {
    /// An empty snapshot: no key is bound.
    pub fn new() -> (r: Database)
        ensures
            r@ == Map::<Seq<char>, Seq<char>>::empty(),
    {
        Database { entries: Vec::new() }
    }

    /// Bind `key` to `value`, overriding any earlier binding of the same key.
    pub fn insert(&mut self, key: &str, value: &str)
        ensures
            final(self)@ == old(self)@.insert(key@, value@),
    {
        self.entries.push((key.to_owned(), value.to_owned()));
        proof {
            assert(self.entries@.drop_last() =~= old(self).entries@);
        }
    }

    /// Look `key` up in the snapshot, yielding an owned copy of the bound
    /// value, or absence when the key is not bound.
    pub fn query(&self, key: &String) -> (r: Option<String>)
        ensures
            r.deep_view() == map_get(self@, key@),
    {
        let n = self.entries.len();
        let mut found: Option<String> = None;
        let mut i: usize = 0;
        while i < n
            invariant
                n == self.entries@.len(),
                i <= n,
                found.deep_view() == map_get(map_of_entries(self.entries@.take(i as int)), key@),
            decreases n - i,
        {
            if self.entries[i].0 == *key {
                found = Some(self.entries[i].1.clone());
            }
            proof {
                assert(self.entries@.take(i + 1 as int).drop_last() =~= self.entries@.take(
                    i as int,
                ));
                assert(self.entries@.take(i + 1 as int).last() == self.entries@[i as int]);
            }
            i = i + 1;
        }
        proof {
            assert(self.entries@.take(n as int) =~= self.entries@);
        }
        found
    }
}

} // verus!
