//! The insertion-ordered map of the `linked-hash-map` crate, as this library
//! uses it: from text to text.
//!
//! Verus does not read that crate. What this file says of it is believed,
//! not proved: the map is declared as an opaque type, `entries` names what a
//! map holds, and each function marked `external_body` makes one call into
//! the crate and states what that call does to the entries.

use linked_hash_map::LinkedHashMap;
use vstd::prelude::*;

verus! {

#[verifier::external_type_specification]
#[verifier::external_body]
#[verifier::reject_recursive_types(K)]
#[verifier::reject_recursive_types(V)]
#[verifier::reject_recursive_types(S)]
pub struct ExLinkedHashMap<K, V, S>(LinkedHashMap<K, V, S>);

/// The entries of a map, as key and value, in the order in which the map
/// hands them out: the one that was inserted longest ago comes first.
pub uninterp spec fn entries(map: LinkedHashMap<String, String>) -> Seq<(Seq<char>, Seq<char>)>;

/// The entries but those under `key`, in their order.
pub open spec fn without_key(s: Seq<(Seq<char>, Seq<char>)>, key: Seq<char>) -> Seq<
    (Seq<char>, Seq<char>),
>
    decreases s.len(),
{
    if s.len() == 0 {
        s
    } else if s.last().0 == key {
        without_key(s.drop_last(), key)
    } else {
        without_key(s.drop_last(), key).push(s.last())
    }
}

/// The entries after `key` was set to `value`: an earlier entry under that
/// key is gone, and the new one stands last.
pub open spec fn with_entry(s: Seq<(Seq<char>, Seq<char>)>, key: Seq<char>, value: Seq<char>) -> Seq<
    (Seq<char>, Seq<char>),
> {
    without_key(s, key).push((key, value))
}

/// The entries after each entry of `more` was set in turn.
pub open spec fn with_entries(s: Seq<(Seq<char>, Seq<char>)>, more: Seq<(Seq<char>, Seq<char>)>) -> Seq<
    (Seq<char>, Seq<char>),
>
    decreases more.len(),
{
    if more.len() == 0 {
        s
    } else {
        with_entry(with_entries(s, more.drop_last()), more.last().0, more.last().1)
    }
}

/// Whether some entry stands under `key`.
pub open spec fn has_key(s: Seq<(Seq<char>, Seq<char>)>, key: Seq<char>) -> bool {
    exists|i: int| 0 <= i < s.len() && (#[trigger] s[i]).0 == key
}

/// The keys and values that a vector of pairs holds.
pub open spec fn pair_texts(v: Seq<(String, String)>) -> Seq<(Seq<char>, Seq<char>)> {
    Seq::new(v.len(), |i: int| (v[i].0@, v[i].1@))
}

/// `LinkedHashMap::new`: the new map holds nothing.
#[verifier::external_body]
pub(crate) fn new_map() -> (map: LinkedHashMap<String, String>)
    ensures
        entries(map) == Seq::<(Seq<char>, Seq<char>)>::empty(),
{
    LinkedHashMap::new()
}

/// `LinkedHashMap::insert`: the value stands under the key afterwards. Where
/// the key was there before, its entry gets the new value and moves behind
/// all the others; the other entries keep their order.
#[verifier::external_body]
pub(crate) fn insert(map: &mut LinkedHashMap<String, String>, key: String, value: String)
    ensures
        entries(*final(map)) == with_entry(entries(*old(map)), key@, value@),
{
    map.insert(key, value);
}

/// `LinkedHashMap::remove`: the entry under the key, if there is one, leaves;
/// the other entries keep their order.
#[verifier::external_body]
pub(crate) fn remove(map: &mut LinkedHashMap<String, String>, key: &str)
    ensures
        entries(*final(map)) == without_key(entries(*old(map)), key@),
{
    map.remove(key);
}

/// `LinkedHashMap::iter`: hands out a copy of each entry, in the map's order.
#[verifier::external_body]
pub(crate) fn to_pairs(map: &LinkedHashMap<String, String>) -> (pairs: Vec<(String, String)>)
    ensures
        pair_texts(pairs@) == entries(*map),
{
    map.iter().map(|(key, value)| (key.clone(), value.clone())).collect()
}

/// `LinkedHashMap::clone`: the copy holds the same entries in the same order.
#[verifier::external_body]
pub(crate) fn clone_map(map: &LinkedHashMap<String, String>) -> (copy: LinkedHashMap<String, String>)
    ensures
        entries(copy) == entries(*map),
{
    map.clone()
}

/// Sets each pair in the map, in the vector's order.
pub(crate) fn insert_all(map: &mut LinkedHashMap<String, String>, pairs: Vec<(String, String)>)
    ensures
        entries(*final(map)) == with_entries(entries(*old(map)), pair_texts(pairs@)),
{
    let ghost all = pair_texts(pairs@);
    let ghost start = entries(*map);
    let ghost mut n: int = 0;
    let mut rest = pairs;
    assert(all.take(0) =~= Seq::empty());
    assert(all.skip(0) =~= all);
    while rest.len() > 0
        invariant
            0 <= n,
            n + rest.len() == all.len(),
            pair_texts(rest@) =~= all.skip(n),
            entries(*map) == with_entries(start, all.take(n)),
        decreases rest.len(),
    {
        let ghost before = rest@;
        let pair = rest.remove(0);
        proof {
            assert(all[n] == pair_texts(before)[0]);
            assert forall|i: int| 0 <= i < rest@.len() implies pair_texts(rest@)[i] == all.skip(
                n + 1,
            )[i] by {
                assert(rest@[i] == before[i + 1]);
                assert(pair_texts(before)[i + 1] == all.skip(n)[i + 1]);
            }
            assert(pair_texts(rest@) =~= all.skip(n + 1));
            assert(all.take(n + 1).drop_last() =~= all.take(n));
            n = n + 1;
        }
        insert(map, pair.0, pair.1);
    }
    assert(all.take(n) =~= all);
}

} // verus!
