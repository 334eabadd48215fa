//! The per-crate and per-module level filters of the logger.

use crate::level::LevelFilter;
use vstd::prelude::*;

verus! {

/// Names of crates and module paths whose records are limited to a maximum level. Names are
/// matched whole and case sensitively; each name has at most one entry.
#[derive(Debug)]
pub struct ModuleDenylist {
    entries: Vec<(String, LevelFilter)>,
}

/// Whether `name` is the name of the entry at index `i` of `entries`.
pub open spec fn names_entry(entries: Seq<(String, LevelFilter)>, name: Seq<char>, i: int) -> bool {
    0 <= i < entries.len() && entries[i].0@ == name
}

/// No name has two entries.
pub open spec fn names_unique(entries: Seq<(String, LevelFilter)>) -> bool {
    forall|i: int, j: int|
        0 <= i < entries.len() && 0 <= j < entries.len() && i != j ==> #[trigger] entries[i].0@
            != #[trigger] entries[j].0@
}

/// The map from names to filters that a list of entries with unique names stands for.
pub open spec fn entries_map(entries: Seq<(String, LevelFilter)>) -> Map<Seq<char>, LevelFilter> {
    Map::new(
        |name: Seq<char>| exists|i: int| names_entry(entries, name, i),
        |name: Seq<char>| entries[choose|i: int| names_entry(entries, name, i)].1,
    )
}

/// With unique names, the entry at index `i` gives the map's value for its name.
proof fn lemma_entry_in_map(entries: Seq<(String, LevelFilter)>, i: int)
    requires
        names_unique(entries),
        0 <= i < entries.len(),
    ensures
        entries_map(entries).contains_key(entries[i].0@),
        entries_map(entries)[entries[i].0@] == entries[i].1,
{
    let name = entries[i].0@;
    assert(names_entry(entries, name, i));
    let k = choose|k: int| names_entry(entries, name, k);
    assert(entries[k].0@ == entries[i].0@);
}

/// Replacing the filter of an entry (keeping its name) updates the map at that name.
proof fn lemma_update_entry(
    entries: Seq<(String, LevelFilter)>,
    i: int,
    name: String,
    level: LevelFilter,
)
    requires
        names_unique(entries),
        0 <= i < entries.len(),
        entries[i].0@ == name@,
    ensures
        names_unique(entries.update(i, (name, level))),
        entries_map(entries.update(i, (name, level))) =~= entries_map(entries).insert(
            name@,
            level,
        ),
{
    let new_entries = entries.update(i, (name, level));
    assert forall|a: int, b: int|
        0 <= a < new_entries.len() && 0 <= b < new_entries.len() && a != b implies #[trigger] new_entries[a].0@
        != #[trigger] new_entries[b].0@ by {
        assert(entries[a].0@ != entries[b].0@);
    }
    lemma_entry_in_map(new_entries, i);
    assert forall|k: Seq<char>| k != name@ implies (#[trigger] entries_map(new_entries).contains_key(k)
        == entries_map(entries).contains_key(k)) && (entries_map(new_entries).contains_key(k)
        ==> entries_map(new_entries)[k] == entries_map(entries)[k]) by {
        if entries_map(entries).contains_key(k) {
            let j = choose|j: int| names_entry(entries, k, j);
            assert(names_entry(new_entries, k, j));
            lemma_entry_in_map(entries, j);
            lemma_entry_in_map(new_entries, j);
        }
        if entries_map(new_entries).contains_key(k) {
            let j = choose|j: int| names_entry(new_entries, k, j);
            assert(names_entry(entries, k, j));
        }
    }
}

/// Appending an entry under a new name adds that name to the map.
proof fn lemma_push_entry(entries: Seq<(String, LevelFilter)>, name: String, level: LevelFilter)
    requires
        names_unique(entries),
        !entries_map(entries).contains_key(name@),
    ensures
        names_unique(entries.push((name, level))),
        entries_map(entries.push((name, level))) =~= entries_map(entries).insert(name@, level),
{
    let new_entries = entries.push((name, level));
    let n = entries.len() as int;
    assert forall|a: int, b: int|
        0 <= a < new_entries.len() && 0 <= b < new_entries.len() && a != b implies #[trigger] new_entries[a].0@
        != #[trigger] new_entries[b].0@ by {
        if a == n {
            assert(!names_entry(entries, name@, b));
        } else if b == n {
            assert(!names_entry(entries, name@, a));
        } else {
            assert(entries[a].0@ != entries[b].0@);
        }
    }
    lemma_entry_in_map(new_entries, n);
    assert forall|k: Seq<char>| k != name@ implies (#[trigger] entries_map(new_entries).contains_key(k)
        == entries_map(entries).contains_key(k)) && (entries_map(new_entries).contains_key(k)
        ==> entries_map(new_entries)[k] == entries_map(entries)[k]) by {
        if entries_map(entries).contains_key(k) {
            let j = choose|j: int| names_entry(entries, k, j);
            assert(names_entry(new_entries, k, j));
            lemma_entry_in_map(entries, j);
            lemma_entry_in_map(new_entries, j);
        }
        if entries_map(new_entries).contains_key(k) {
            let j = choose|j: int| names_entry(new_entries, k, j);
            assert(names_entry(entries, k, j));
        }
    }
}

impl View for ModuleDenylist {
    type V = Map<Seq<char>, LevelFilter>;

    closed spec fn view(&self) -> Map<Seq<char>, LevelFilter> {
        entries_map(self.entries@)
    }
}

impl ModuleDenylist {
    #[verifier::type_invariant]
    spec fn names_are_unique(self) -> bool {
        names_unique(self.entries@)
    }

    /// A list with no entries.
    pub fn new() -> (list: Self)
        ensures
            list@ == Map::<Seq<char>, LevelFilter>::empty(),
    {
        let list = ModuleDenylist { entries: Vec::new() };
        assert(list@ =~= Map::<Seq<char>, LevelFilter>::empty());
        list
    }

    /// Sets the filter of `name`, replacing the one it had.
    pub fn insert(&mut self, name: String, level: LevelFilter)
        ensures
            final(self)@ == old(self)@.insert(name@, level),
    {
        proof {
            use_type_invariant(&*self);
        }
        let n = self.entries.len();
        let mut i: usize = 0;
        while i < n
            invariant
                n == self.entries@.len(),
                names_unique(self.entries@),
                self@ == old(self)@,
                0 <= i <= n,
                forall|j: int| 0 <= j < i ==> self.entries@[j].0@ != name@,
            decreases n - i,
        {
            if self.entries[i].0 == name {
                proof {
                    lemma_update_entry(self.entries@, i as int, name, level);
                }
                let mut entries = Vec::new();
                std::mem::swap(&mut entries, &mut self.entries);
                entries.set(i, (name, level));
                self.entries = entries;
                return ;
            }
            i = i + 1;
        }
        proof {
            assert(!entries_map(self.entries@).contains_key(name@)) by {
                if entries_map(self.entries@).contains_key(name@) {
                    let j = choose|j: int| names_entry(self.entries@, name@, j);
                    assert(self.entries@[j].0@ != name@);
                }
            }
            lemma_push_entry(self.entries@, name, level);
        }
        let mut entries = Vec::new();
        std::mem::swap(&mut entries, &mut self.entries);
        entries.push((name, level));
        self.entries = entries;
    }

    /// The filter of `name`, if it has one.
    pub fn get(&self, name: &str) -> (r: Option<LevelFilter>)
        ensures
            r == (if self@.contains_key(name@) {
                Some(self@[name@])
            } else {
                None
            }),
    {
        proof {
            use_type_invariant(self);
        }
        let key = String::from_str(name);
        let n = self.entries.len();
        let mut i: usize = 0;
        while i < n
            invariant
                n == self.entries@.len(),
                names_unique(self.entries@),
                key@ == name@,
                0 <= i <= n,
                forall|j: int| 0 <= j < i ==> self.entries@[j].0@ != name@,
            decreases n - i,
        {
            if self.entries[i].0 == key {
                proof {
                    lemma_entry_in_map(self.entries@, i as int);
                }
                return Some(self.entries[i].1);
            }
            i = i + 1;
        }
        proof {
            if entries_map(self.entries@).contains_key(name@) {
                let j = choose|j: int| names_entry(self.entries@, name@, j);
                assert(self.entries@[j].0@ != name@);
            }
        }
        None
    }
}

} // verus!
