//! Lists of named items in which no name occurs twice, and the mappings
//! that they stand for.

use vstd::prelude::*;

verus! {

/// Whether a name occurs among the first components of a list of pairs.
pub open spec fn names_hold<V>(pairs: Seq<(Seq<char>, V)>, name: Seq<char>) -> bool {
    exists|i: int| 0 <= i < pairs.len() && (#[trigger] pairs[i]).0 == name
}

/// Whether no name occurs twice in a list of pairs.
pub open spec fn names_distinct<V>(pairs: Seq<(Seq<char>, V)>) -> bool {
    forall|i: int, j: int|
        0 <= i < pairs.len() && 0 <= j < pairs.len() && i != j ==> (#[trigger] pairs[i]).0 != (
        #[trigger] pairs[j]).0
}

/// The mapping that a list of pairs with distinct names stands for.
pub open spec fn pairs_mapping<V>(pairs: Seq<(Seq<char>, V)>) -> Map<Seq<char>, V> {
    Map::new(
        |name: Seq<char>| names_hold(pairs, name),
        |name: Seq<char>|
            pairs[choose|i: int| 0 <= i < pairs.len() && (#[trigger] pairs[i]).0 == name].1,
    )
}

pub proof fn lemma_mapping_of_distinct<V>(pairs: Seq<(Seq<char>, V)>, i: int)
    requires
        names_distinct(pairs),
        0 <= i < pairs.len(),
    ensures
        pairs_mapping(pairs).contains_key(pairs[i].0),
        pairs_mapping(pairs)[pairs[i].0] == pairs[i].1,
{
    let name = pairs[i].0;
    assert(names_hold(pairs, name));
    let j = choose|j: int| 0 <= j < pairs.len() && (#[trigger] pairs[j]).0 == name;
    assert(j == i);
}

pub proof fn lemma_mapping_push<V>(pairs: Seq<(Seq<char>, V)>, name: Seq<char>, value: V)
    requires
        names_distinct(pairs),
        !names_hold(pairs, name),
    ensures
        names_distinct(pairs.push((name, value))),
        pairs_mapping(pairs.push((name, value))) == pairs_mapping(pairs).insert(name, value),
{
    let longer = pairs.push((name, value));
    assert forall|i: int, j: int|
        0 <= i < longer.len() && 0 <= j < longer.len() && i != j implies (#[trigger] longer[i]).0
        != (#[trigger] longer[j]).0 by {
        if i < pairs.len() && j < pairs.len() {
            assert(pairs[i].0 != pairs[j].0);
        } else if i < pairs.len() {
            assert(pairs[i].0 != name);
        } else {
            assert(pairs[j].0 != name);
        }
    }
    assert forall|k: Seq<char>| names_hold(longer, k) <==> (k == name || names_hold(pairs, k)) by {
        if names_hold(longer, k) {
            let i = choose|i: int| 0 <= i < longer.len() && (#[trigger] longer[i]).0 == k;
            if i < pairs.len() {
                assert(pairs[i].0 == k);
            }
        }
        if k == name {
            assert(longer[pairs.len() as int].0 == k);
        }
        if names_hold(pairs, k) {
            let i = choose|i: int| 0 <= i < pairs.len() && (#[trigger] pairs[i]).0 == k;
            assert(longer[i].0 == k);
        }
    }
    assert forall|k: Seq<char>| names_hold(longer, k) implies pairs_mapping(longer)[k]
        == pairs_mapping(pairs).insert(name, value)[k] by {
        let i = choose|i: int| 0 <= i < longer.len() && (#[trigger] longer[i]).0 == k;
        lemma_mapping_of_distinct(longer, i);
        if i < pairs.len() {
            assert(longer[i] == pairs[i]);
            lemma_mapping_of_distinct(pairs, i);
        }
    }
    assert(pairs_mapping(longer) =~= pairs_mapping(pairs).insert(name, value));
}

pub proof fn lemma_mapping_update<V>(
    pairs: Seq<(Seq<char>, V)>,
    at: int,
    name: Seq<char>,
    value: V,
)
    requires
        names_distinct(pairs),
        0 <= at < pairs.len(),
        pairs[at].0 == name,
    ensures
        names_distinct(pairs.update(at, (name, value))),
        pairs_mapping(pairs.update(at, (name, value))) == pairs_mapping(pairs).insert(name, value),
{
    let changed = pairs.update(at, (name, value));
    assert forall|i: int, j: int|
        0 <= i < changed.len() && 0 <= j < changed.len() && i != j implies (
    #[trigger] changed[i]).0 != (#[trigger] changed[j]).0 by {
        assert(changed[i].0 == pairs[i].0);
        assert(changed[j].0 == pairs[j].0);
    }
    assert forall|k: Seq<char>| names_hold(changed, k) <==> names_hold(pairs, k) by {
        if names_hold(changed, k) {
            let i = choose|i: int| 0 <= i < changed.len() && (#[trigger] changed[i]).0 == k;
            assert(pairs[i].0 == k);
        }
        if names_hold(pairs, k) {
            let i = choose|i: int| 0 <= i < pairs.len() && (#[trigger] pairs[i]).0 == k;
            assert(changed[i].0 == k);
        }
    }
    assert(names_hold(pairs, name)) by {
        assert(pairs[at].0 == name);
    }
    assert forall|k: Seq<char>| names_hold(changed, k) implies pairs_mapping(changed)[k]
        == pairs_mapping(pairs).insert(name, value)[k] by {
        let i = choose|i: int| 0 <= i < changed.len() && (#[trigger] changed[i]).0 == k;
        lemma_mapping_of_distinct(changed, i);
        if i != at {
            assert(changed[i] == pairs[i]);
            lemma_mapping_of_distinct(pairs, i);
        }
    }
    assert(pairs_mapping(changed) =~= pairs_mapping(pairs).insert(name, value));
}

/// A list with distinct names stands for a mapping with as many names as
/// the list has items.
pub proof fn lemma_mapping_len<V>(pairs: Seq<(Seq<char>, V)>)
    requires
        names_distinct(pairs),
    ensures
        pairs_mapping(pairs).dom().finite(),
        pairs_mapping(pairs).dom().len() == pairs.len(),
    decreases pairs.len(),
{
    if pairs.len() == 0 {
        assert(pairs_mapping(pairs).dom() =~= Set::<Seq<char>>::empty());
    } else {
        let before = pairs.drop_last();
        let last = pairs.last();
        assert forall|i: int, j: int|
            0 <= i < before.len() && 0 <= j < before.len() && i != j implies (
        #[trigger] before[i]).0 != (#[trigger] before[j]).0 by {
            assert(before[i] == pairs[i]);
            assert(before[j] == pairs[j]);
        }
        assert(!names_hold(before, last.0)) by {
            if names_hold(before, last.0) {
                let i = choose|i: int| 0 <= i < before.len() && (#[trigger] before[i]).0 == last.0;
                assert(pairs[i].0 == pairs[pairs.len() - 1].0);
            }
        }
        lemma_mapping_len(before);
        lemma_mapping_push(before, last.0, last.1);
        assert(before.push((last.0, last.1)) =~= pairs);
        assert(pairs_mapping(pairs).dom() =~= pairs_mapping(before).dom().insert(last.0));
    }
}

} // verus!
