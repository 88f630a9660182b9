//! Header tables: a mapping from header name to header value in which every
//! name occurs once.

use crate::assoc::{
    lemma_mapping_len, lemma_mapping_of_distinct, lemma_mapping_push, lemma_mapping_update,
    names_distinct, names_hold, pairs_mapping,
};
use vstd::prelude::*;

verus! {

/// A mapping from header name to header value. Names are compared character
/// by character; a table never holds a name twice.
#[derive(Debug)]
pub struct HeaderTable {
    entries: Vec<(String, String)>,
}

impl View for HeaderTable {
    type V = Map<Seq<char>, Seq<char>>;

    closed spec fn view(&self) -> Map<Seq<char>, Seq<char>> {
        pairs_mapping(self.entries.deep_view())
    }
}

fn find_name(entries: &Vec<(String, String)>, name: &str) -> (found: Option<usize>)
    ensures
        match found {
            Some(i) => i < entries.len() && entries[i as int].0@ == name@,
            None => !names_hold(entries.deep_view(), name@),
        },
{
    let mut i: usize = 0;
    while i < entries.len()
        invariant
            i <= entries.len(),
            forall|k: int| 0 <= k < i ==> entries[k].0@ != name@,
        decreases entries.len() - i,
    {
        if crate::text::text_eq(entries[i].0.as_str(), name) {
            return Some(i);
        }
        i += 1;
    }
    proof {
        let pairs = entries.deep_view();
        assert forall|k: int| 0 <= k < pairs.len() implies (#[trigger] pairs[k]).0 != name@ by {
            assert(pairs[k].0 == entries[k].0@);
        }
    }
    None
}

impl HeaderTable {
    #[verifier::type_invariant]
    spec fn names_occur_once(self) -> bool {
        names_distinct(self.entries.deep_view())
    }

    /// The table's entries, each name once, in an order of the table's choosing.
    pub closed spec fn listing(&self) -> Seq<(Seq<char>, Seq<char>)> {
        self.entries.deep_view()
    }

    /// An empty table.
    pub fn new() -> (table: Self)
        ensures
            table@ == Map::<Seq<char>, Seq<char>>::empty(),
            table.listing() == Seq::<(Seq<char>, Seq<char>)>::empty(),
    {
        let table = HeaderTable { entries: Vec::new() };
        assert(table.entries.deep_view() =~= Seq::empty());
        assert(table@ =~= Map::<Seq<char>, Seq<char>>::empty());
        table
    }

    /// The value held under a name, if the table holds the name.
    pub fn get(&self, name: &str) -> (value: Option<&String>)
        ensures
            match value {
                Some(v) => self@.contains_key(name@) && self@[name@] == v@,
                None => !self@.contains_key(name@),
            },
    {
        proof {
            use_type_invariant(self);
        }
        match find_name(&self.entries, name) {
            Some(i) => {
                proof {
                    let pairs = self.entries.deep_view();
                    assert(pairs[i as int].0 == self.entries[i as int].0@);
                    assert(pairs[i as int].1 == self.entries[i as int].1@);
                    lemma_mapping_of_distinct(pairs, i as int);
                }
                Some(&self.entries[i].1)
            },
            None => None,
        }
    }

    /// Puts a value under a name, in place of the value that the name had, if any.
    pub fn insert(&mut self, name: String, value: String)
        ensures
            final(self)@ == old(self)@.insert(name@, value@),
    {
        proof {
            use_type_invariant(&*self);
        }
        let ghost before = self.entries.deep_view();
        let mut entries: Vec<(String, String)> = Vec::new();
        assert(entries.deep_view() =~= Seq::empty());
        core::mem::swap(&mut self.entries, &mut entries);
        match find_name(&entries, name.as_str()) {
            Some(i) => {
                proof {
                    assert(before[i as int].0 == entries[i as int].0@);
                    lemma_mapping_update(before, i as int, name@, value@);
                }
                entries[i] = (name, value);
                assert(entries.deep_view() =~= before.update(i as int, (name@, value@)));
            },
            None => {
                proof {
                    lemma_mapping_push(before, name@, value@);
                }
                entries.push((name, value));
                assert(entries.deep_view() =~= before.push((name@, value@)));
            },
        }
        core::mem::swap(&mut self.entries, &mut entries);
    }

    /// The number of names in the table, which is the length of its listing.
    pub fn len(&self) -> (count: usize)
        ensures
            count == self@.dom().len(),
            self@.dom().finite(),
            count == self.listing().len(),
            names_distinct(self.listing()),
            self@ == pairs_mapping(self.listing()),
    {
        proof {
            use_type_invariant(self);
            lemma_mapping_len(self.entries.deep_view());
        }
        self.entries.len()
    }

    /// The entry at a position of the listing: its name and its value.
    pub fn entry(&self, at: usize) -> (pair: (&String, &String))
        requires
            at < self.listing().len(),
        ensures
            (pair.0@, pair.1@) == self.listing()[at as int],
            self@.contains_key(pair.0@),
            self@[pair.0@] == pair.1@,
    {
        proof {
            use_type_invariant(self);
            let pairs = self.entries.deep_view();
            assert(pairs[at as int].0 == self.entries[at as int].0@);
            assert(pairs[at as int].1 == self.entries[at as int].1@);
            lemma_mapping_of_distinct(pairs, at as int);
        }
        (&self.entries[at].0, &self.entries[at].1)
    }
}

} // verus!
