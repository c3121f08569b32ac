//! Raw configuration sources: flat lists of `key = value` texts, and the
//! priority-ordered stack of them from which options are resolved.

use vstd::prelude::*;
use crate::text::same_text;

verus! {

/// A list of raw entries as a sequence of (key, value) texts.
pub type RawEntries = Seq<(Seq<char>, Seq<char>)>;

/// The texts of one entry.
pub open spec fn entry_view(e: (String, String)) -> (Seq<char>, Seq<char>) {
    (e.0@, e.1@)
}

/// The texts of a list of entries.
pub open spec fn entries_view(v: Seq<(String, String)>) -> RawEntries {
    Seq::new(v.len(), |i: int| entry_view(v[i]))
}

/// The value that a list of entries gives a key: that of the first entry
/// with this key, if there is one.
pub open spec fn lookup(entries: RawEntries, key: Seq<char>) -> Option<Seq<char>>
    decreases entries.len(),
{
    if entries.len() == 0 {
        None
    } else if entries[0].0 == key {
        Some(entries[0].1)
    } else {
        lookup(entries.skip(1), key)
    }
}

/// A source as a table: each key with its one raw text.
pub type RawTable = Map<Seq<char>, Seq<char>>;

/// The raw text that a table gives a key, if it knows the key.
pub open spec fn table_get(table: RawTable, key: Seq<char>) -> Option<Seq<char>> {
    if table.contains_key(key) {
        Some(table[key])
    } else {
        None
    }
}

/// The table that a list of entries stands for: every key that occurs,
/// with the value of its first entry. The order of the entries of
/// different keys leaves no trace in it.
pub open spec fn entries_map(entries: RawEntries) -> RawTable {
    Map::new(|key: Seq<char>| lookup(entries, key) is Some, |key: Seq<char>| lookup(entries, key).unwrap())
}

/// The value that a stack of sources gives a key. The stack is ordered by
/// rising priority: the last source that knows the key decides.
pub open spec fn lookup_layered(layers: Seq<RawTable>, key: Seq<char>) -> Option<Seq<char>>
    decreases layers.len(),
{
    if layers.len() == 0 {
        None
    } else {
        match table_get(layers.last(), key) {
            Some(v) => Some(v),
            None => lookup_layered(layers.drop_last(), key),
        }
    }
}

/// Looks a key up in a list of entries.
pub fn find_entry<'a>(entries: &'a Vec<(String, String)>, key: &str) -> (r: Option<&'a String>)
    ensures
        match r {
            Some(v) => lookup(entries_view(entries@), key@) == Some(v@),
            None => lookup(entries_view(entries@), key@) is None,
        },
{
    let ghost all = entries_view(entries@);
    let mut i: usize = 0;
    assert(all.skip(0) =~= all);
    while i < entries.len()
        invariant
            i <= entries.len(),
            all == entries_view(entries@),
            lookup(all, key@) == lookup(all.skip(i as int), key@),
        decreases entries.len() - i,
    {
        let entry = &entries[i];
        proof {
            assert(all.skip(i as int)[0] == entry_view(*entry));
            assert(all.skip(i as int).skip(1) =~= all.skip(i as int + 1));
        }
        if same_text(entry.0.as_str(), key) {
            return Some(&entry.1);
        }
        i += 1;
    }
    None
}

/// The intermediate mapping from option names to raw texts: a stack of
/// sources, the lowest priority first.
pub struct RawOverrideMap {
    pub layers: Vec<Vec<(String, String)>>,
}

impl View for RawOverrideMap {
    type V = Seq<RawTable>;

    open spec fn view(&self) -> Seq<RawTable> {
        Seq::new(self.layers@.len(), |i: int| entries_map(entries_view(self.layers@[i]@)))
    }
}

impl RawOverrideMap {
    /// The raw text that the stack gives a key.
    pub open spec fn value_of(&self, key: Seq<char>) -> Option<Seq<char>> {
        lookup_layered(self@, key)
    }

    /// A stack without sources: every option keeps its default.
    pub fn new() -> (m: RawOverrideMap)
        ensures
            m@ == Seq::<RawTable>::empty(),
    {
        let m = RawOverrideMap { layers: Vec::new() };
        assert(m@ =~= Seq::<RawTable>::empty());
        m
    }

    /// Puts a source on top of the stack: it overrides all that are there.
    pub fn push_source(&mut self, entries: Vec<(String, String)>)
        ensures
            final(self)@ == old(self)@.push(entries_map(entries_view(entries@))),
    {
        self.layers.push(entries);
        assert(self@ =~= old(self)@.push(entries_map(entries_view(entries@))));
    }

    /// The raw text of a key, from the source of highest priority that
    /// knows it.
    pub fn get(&self, key: &str) -> (r: Option<&String>)
        ensures
            match r {
                Some(v) => self.value_of(key@) == Some(v@),
                None => self.value_of(key@) is None,
            },
    {
        let mut n: usize = self.layers.len();
        assert(self@.take(n as int) =~= self@);
        while n > 0
            invariant
                n <= self.layers.len(),
                lookup_layered(self@, key@) == lookup_layered(self@.take(n as int), key@),
            decreases n,
        {
            proof {
                assert(self@.take(n as int).last() == entries_map(
                    entries_view(self.layers@[n - 1]@),
                ));
                assert(self@.take(n as int).drop_last() =~= self@.take(n as int - 1));
            }
            let found = find_entry(&self.layers[n - 1], key);
            if found.is_some() {
                return found;
            }
            n -= 1;
        }
        None
    }
}

} // verus!
