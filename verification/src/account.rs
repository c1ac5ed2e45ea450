//! An account as the resolver sees it: the table of named keys it owns.

use crate::key::Key;
use vstd::prelude::*;

verus! {

/// One entry of an account's table: a name and the key stored under it.
#[derive(Clone, Debug, PartialEq, Eq)]
pub struct NamedKey {
    pub name: String,
    pub key: Key,
}

/// The key stored under `name` by the first entry of that name, if any.
pub open spec fn lookup(entries: Seq<NamedKey>, name: Seq<char>) -> Option<Key>
    decreases entries.len(),
{
    if entries.len() == 0 {
        None
    } else if entries[0].name@ == name {
        Some(entries[0].key)
    } else {
        lookup(entries.skip(1), name)
    }
}

/// No two entries carry the same name.
pub open spec fn distinct_names(entries: Seq<NamedKey>) -> bool {
    forall|i: int, j: int|
        0 <= i < j < entries.len() ==> #[trigger] entries[i].name@ != #[trigger] entries[j].name@
}

/// `lookup` skips the entries whose name differs from the one sought.
pub proof fn lemma_lookup_from(entries: Seq<NamedKey>, name: Seq<char>, i: int)
    requires
        0 <= i <= entries.len(),
        forall|j: int| 0 <= j < i ==> (#[trigger] entries[j]).name@ != name,
    ensures
        lookup(entries, name) == lookup(entries.skip(i), name),
    decreases i,
{
    if i == 0 {
        assert(entries.skip(0) =~= entries);
    } else {
        lemma_lookup_from(entries, name, i - 1);
        let rest = entries.skip(i - 1);
        assert(rest[0] == entries[i - 1]);
        assert(rest.skip(1) =~= entries.skip(i));
    }
}

/// An account's capability table: a mapping from names to keys, one key
/// per name.
#[derive(Clone, Debug, PartialEq, Eq)]
pub struct NamedKeys {
    entries: Vec<NamedKey>,
}

impl View for NamedKeys {
    type V = Map<Seq<char>, Key>;

    closed spec fn view(&self) -> Map<Seq<char>, Key> {
        Map::new(
            |name: Seq<char>| lookup(self.entries@, name) is Some,
            |name: Seq<char>| lookup(self.entries@, name).unwrap(),
        )
    }
}

impl NamedKeys {
    /// The table's invariant: each name occurs once.
    pub closed spec fn wf(&self) -> bool {
        distinct_names(self.entries@)
    }

    /// The table without entries.
    pub fn new() -> (table: NamedKeys)
        ensures
            table.wf(),
            table@ == Map::<Seq<char>, Key>::empty(),
    {
        let table = NamedKeys { entries: Vec::new() };
        assert(table@ =~= Map::<Seq<char>, Key>::empty());
        table
    }

    /// Returns a copy of the key stored under exactly `name`, or `None`
    /// where the table has no such name.
    pub fn get(&self, name: &String) -> (key: Option<Key>)
        ensures
            key == (if self@.contains_key(name@) {
                Some(self@[name@])
            } else {
                None
            }),
    {
        let mut i: usize = 0;
        while i < self.entries.len()
            invariant
                i <= self.entries.len(),
                forall|j: int| 0 <= j < i ==> (#[trigger] self.entries@[j]).name@ != name@,
            decreases self.entries.len() - i,
        {
            if self.entries[i].name == *name {
                proof {
                    lemma_lookup_from(self.entries@, name@, i as int);
                }
                return Some(self.entries[i].key);
            }
            i += 1;
        }
        proof {
            lemma_lookup_from(self.entries@, name@, i as int);
        }
        None
    }

    /// Stores `key` under `name`, in place of the key that the name had.
    pub fn insert(&mut self, name: String, key: Key)
        requires
            old(self).wf(),
        ensures
            final(self).wf(),
            final(self)@ == old(self)@.insert(name@, key),
    {
        let mut i: usize = 0;
        while i < self.entries.len()
            invariant
                i <= self.entries.len(),
                *self == *old(self),
                self.wf(),
                forall|j: int| 0 <= j < i ==> (#[trigger] self.entries@[j]).name@ != name@,
            decreases self.entries.len() - i,
        {
            if self.entries[i].name == name {
                let ghost before = self.entries@;
                self.entries.set(i, NamedKey { name, key });
                proof {
                    let after = self.entries@;
                    assert forall|n: Seq<char>| lookup(after, n) == (if n == name@ {
                        Some(key)
                    } else {
                        lookup(before, n)
                    }) by {
                        lemma_lookup_update(before, after, i as int, n);
                    }
                    assert(self@ =~= old(self)@.insert(name@, key));
                }
                return ;
            }
            i += 1;
        }
        let ghost before = self.entries@;
        self.entries.push(NamedKey { name, key });
        proof {
            let after = self.entries@;
            let entry = after[before.len() as int];
            assert(after =~= before.push(entry));
            lemma_lookup_from(before, name@, before.len() as int);
            assert forall|n: Seq<char>| lookup(after, n) == (if n == name@ {
                Some(key)
            } else {
                lookup(before, n)
            }) by {
                lemma_lookup_push(before, entry, n);
            }
            assert(self@ =~= old(self)@.insert(name@, key));
        }
    }
}

/// Replacing the key of entry `i` changes `lookup` for that entry's name
/// alone, provided the names are distinct.
pub proof fn lemma_lookup_update(before: Seq<NamedKey>, after: Seq<NamedKey>, i: int, n: Seq<char>)
    requires
        0 <= i < before.len(),
        distinct_names(before),
        after.len() == before.len(),
        after[i].name@ == before[i].name@,
        forall|j: int| 0 <= j < before.len() && j != i ==> after[j] == before[j],
    ensures
        lookup(after, n) == (if n == before[i].name@ {
            Some(after[i].key)
        } else {
            lookup(before, n)
        }),
        distinct_names(after),
    decreases before.len(),
{
    if before[0].name@ == n {
        if i != 0 {
            assert(before[0].name@ != before[i].name@);
        }
    } else if i == 0 {
        assert(after.skip(1) =~= before.skip(1));
    } else {
        let b = before.skip(1);
        let a = after.skip(1);
        assert forall|x: int, y: int| 0 <= x < y < b.len() implies #[trigger] b[x].name@
            != #[trigger] b[y].name@ by {
            assert(before[x + 1].name@ != before[y + 1].name@);
        }
        lemma_lookup_update(b, a, i - 1, n);
    }
    assert forall|x: int, y: int| 0 <= x < y < after.len() implies #[trigger] after[x].name@
        != #[trigger] after[y].name@ by {
        assert(before[x].name@ != before[y].name@);
    }
}

/// Appending an entry changes `lookup` only for names that had no entry.
pub proof fn lemma_lookup_push(entries: Seq<NamedKey>, entry: NamedKey, n: Seq<char>)
    ensures
        lookup(entries.push(entry), n) == (match lookup(entries, n) {
            Some(key) => Some(key),
            None => if n == entry.name@ {
                Some(entry.key)
            } else {
                None
            },
        }),
    decreases entries.len(),
{
    let pushed = entries.push(entry);
    if entries.len() == 0 {
        assert(pushed.skip(1).len() == 0);
    } else if entries[0].name@ == n {
    } else {
        assert(pushed.skip(1) =~= entries.skip(1).push(entry));
        lemma_lookup_push(entries.skip(1), entry, n);
    }
}

/// The account that submitted a deploy, reduced to what resolution reads.
#[derive(Clone, Debug, PartialEq, Eq)]
pub struct Account {
    named_keys: NamedKeys,
}

impl Account {
    /// The account's table, as a mapping.
    pub closed spec fn spec_named_keys(&self) -> Map<Seq<char>, Key> {
        self.named_keys@
    }

    /// An account that owns `named_keys`.
    pub fn new(named_keys: NamedKeys) -> (account: Account)
        ensures
            account.spec_named_keys() == named_keys@,
    {
        Account { named_keys }
    }

    /// The account's table of named keys.
    pub fn named_keys(&self) -> (table: &NamedKeys)
        ensures
            table@ == self.spec_named_keys(),
    {
        &self.named_keys
    }
}

} // verus!
