//! General properties of the `Observe` conformances, stated and proved.

use std::collections::{BTreeMap, BTreeSet, HashMap, HashSet, VecDeque};
use std::hash::Hash;

use vstd::prelude::*;

use crate::observe::Observe;

verus! {

/// Sequence receivers grow by exactly one element: the newly appended item
/// is the new tail, and the elements present before the append keep their
/// positions.
pub proof fn lemma_vec_update_appends<T>(pre: Vec<T>, post: Vec<T>, item: T)
    requires
        <Vec<T> as Observe<T>>::updated(pre, post, item),
    ensures
        post@.len() == pre@.len() + 1,
        post@.last() == item,
        forall|i: int| 0 <= i < pre@.len() ==> post@[i] == pre@[i],
{
}

/// Sequence receivers grow by exactly one element: the newly appended item
/// is the new tail, and the elements present before the append keep their
/// positions.
pub proof fn lemma_deque_update_appends<T>(pre: VecDeque<T>, post: VecDeque<T>, item: T)
    requires
        <VecDeque<T> as Observe<T>>::updated(pre, post, item),
    ensures
        post@.len() == pre@.len() + 1,
        post@.last() == item,
        forall|i: int| 0 <= i < pre@.len() ==> post@[i] == pre@[i],
{
}

/// A single-code-point append grows the string by exactly one code point:
/// the appended code point is the new tail, and the code points present
/// before the append keep their positions.
pub proof fn lemma_string_char_update_appends(pre: String, post: String, item: char)
    requires
        <String as Observe<char>>::updated(pre, post, item),
    ensures
        post@.len() == pre@.len() + 1,
        post@.last() == item,
        forall|i: int| 0 <= i < pre@.len() ==> post@[i] == pre@[i],
{
}

/// A slice append adds exactly the slice's code points at the tail: the code
/// points present before the append keep their positions, and the appended
/// slice follows them.
pub proof fn lemma_string_slice_update_appends(pre: String, post: String, item: &str)
    requires
        <String as Observe<&str>>::updated(pre, post, item),
    ensures
        post@.len() == pre@.len() + item@.len(),
        forall|i: int| 0 <= i < pre@.len() ==> post@[i] == pre@[i],
        post@.subrange(pre@.len() as int, post@.len() as int) == item@,
{
    assert(post@.subrange(pre@.len() as int, post@.len() as int) =~= item@);
}

/// Set receivers are idempotent: appending an item a second time leaves the
/// receiver's contents exactly as they were after the first append.
pub proof fn lemma_hash_set_update_idempotent<T: Eq + Hash>(
    s0: HashSet<T>,
    s1: HashSet<T>,
    s2: HashSet<T>,
    x: T,
)
    requires
        <HashSet<T> as Observe<T>>::updated(s0, s1, x),
        <HashSet<T> as Observe<T>>::updated(s1, s2, x),
    ensures
        s2@ == s1@,
{
    assert(s2@ =~= s1@);
}

/// Set receivers are idempotent: appending an item a second time leaves the
/// receiver's contents exactly as they were after the first append.
pub proof fn lemma_btree_set_update_idempotent<T: Eq + Ord>(
    s0: BTreeSet<T>,
    s1: BTreeSet<T>,
    s2: BTreeSet<T>,
    x: T,
)
    requires
        <BTreeSet<T> as Observe<T>>::updated(s0, s1, x),
        <BTreeSet<T> as Observe<T>>::updated(s1, s2, x),
    ensures
        s2@ == s1@,
{
    assert(s2@ =~= s1@);
}

/// Map receivers follow last-write-wins: after appending `(k, v1)` and then
/// `(k, v2)`, the key `k` is bound to `v2`.
pub proof fn lemma_hash_map_last_write_wins<K: Eq + Hash, V>(
    m0: HashMap<K, V>,
    m1: HashMap<K, V>,
    m2: HashMap<K, V>,
    k: K,
    v1: V,
    v2: V,
)
    requires
        <HashMap<K, V> as Observe<(K, V)>>::updated(m0, m1, (k, v1)),
        <HashMap<K, V> as Observe<(K, V)>>::updated(m1, m2, (k, v2)),
    ensures
        m2@.contains_key(k),
        m2@[k] == v2,
{
}

/// Map receivers keep disjoint keys: after appending `(k1, v1)` and then
/// `(k2, v2)` with `k1 != k2`, both bindings are present.
pub proof fn lemma_hash_map_disjoint_keys<K: Eq + Hash, V>(
    m0: HashMap<K, V>,
    m1: HashMap<K, V>,
    m2: HashMap<K, V>,
    k1: K,
    v1: V,
    k2: K,
    v2: V,
)
    requires
        <HashMap<K, V> as Observe<(K, V)>>::updated(m0, m1, (k1, v1)),
        <HashMap<K, V> as Observe<(K, V)>>::updated(m1, m2, (k2, v2)),
        k1 != k2,
    ensures
        m2@.contains_key(k1),
        m2@[k1] == v1,
        m2@.contains_key(k2),
        m2@[k2] == v2,
{
}

/// Map receivers follow last-write-wins: after appending `(k, v1)` and then
/// `(k, v2)`, the key `k` is bound to `v2`.
pub proof fn lemma_btree_map_last_write_wins<K: Eq + Ord, V>(
    m0: BTreeMap<K, V>,
    m1: BTreeMap<K, V>,
    m2: BTreeMap<K, V>,
    k: K,
    v1: V,
    v2: V,
)
    requires
        <BTreeMap<K, V> as Observe<(K, V)>>::updated(m0, m1, (k, v1)),
        <BTreeMap<K, V> as Observe<(K, V)>>::updated(m1, m2, (k, v2)),
    ensures
        m2@.contains_key(k),
        m2@[k] == v2,
{
}

/// Map receivers keep disjoint keys: after appending `(k1, v1)` and then
/// `(k2, v2)` with `k1 != k2`, both bindings are present.
pub proof fn lemma_btree_map_disjoint_keys<K: Eq + Ord, V>(
    m0: BTreeMap<K, V>,
    m1: BTreeMap<K, V>,
    m2: BTreeMap<K, V>,
    k1: K,
    v1: V,
    k2: K,
    v2: V,
)
    requires
        <BTreeMap<K, V> as Observe<(K, V)>>::updated(m0, m1, (k1, v1)),
        <BTreeMap<K, V> as Observe<(K, V)>>::updated(m1, m2, (k2, v2)),
        k1 != k2,
    ensures
        m2@.contains_key(k1),
        m2@[k1] == v1,
        m2@.contains_key(k2),
        m2@[k2] == v2,
{
}

/// The string contents after appending each code point of `cs` in turn,
/// one single-code-point append per element, starting from `base`.
pub open spec fn chars_appended(base: Seq<char>, cs: Seq<char>) -> Seq<char>
    decreases cs.len(),
{
    if cs.len() == 0 {
        base
    } else {
        chars_appended(base.push(cs[0]), cs.subrange(1, cs.len() as int))
    }
}

/// One single-code-point append advances `chars_appended` by one step, so
/// `chars_appended` is exactly the state reached by a run of
/// single-code-point appends.
pub proof fn lemma_chars_appended_step(pre: String, post: String, c: char)
    requires
        <String as Observe<char>>::updated(pre, post, c),
    ensures
        post@ == chars_appended(pre@, seq![c]),
{
    assert(seq![c].subrange(1, 1) =~= Seq::<char>::empty());
    assert(chars_appended(pre@.push(c), Seq::<char>::empty()) == pre@.push(c));
}

proof fn lemma_chars_appended_concat(base: Seq<char>, cs: Seq<char>)
    ensures
        chars_appended(base, cs) == base + cs,
    decreases cs.len(),
{
    if cs.len() == 0 {
        assert(base + cs =~= base);
    } else {
        lemma_chars_appended_concat(base.push(cs[0]), cs.subrange(1, cs.len() as int));
        assert(base.push(cs[0]) + cs.subrange(1, cs.len() as int) =~= base + cs);
    }
}

/// Single-code-point appends agree with a slice append: performing one
/// single-code-point append per code point of `s`, in order, produces the
/// same string as one slice append of `s`.
pub proof fn lemma_string_char_slice_equiv(
    pre: String,
    post_chars: String,
    post_slice: String,
    s: &str,
)
    requires
        post_chars@ == chars_appended(pre@, s@),
        <String as Observe<&str>>::updated(pre, post_slice, s),
    ensures
        post_chars@ == post_slice@,
{
    lemma_chars_appended_concat(pre@, s@);
}

} // verus!
