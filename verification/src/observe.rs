//! The `Observe` capability and its conformances for standard containers.

use std::collections::{BTreeMap, BTreeSet, HashMap, HashSet, VecDeque};
use std::hash::Hash;

use vstd::laws_cmp::obeys_cmp;
use vstd::prelude::*;
use vstd::std_specs::hash::obeys_key_model;

verus! {

/// Observer trait: a receiver that can accept one more item of type `T`.
///
/// `update` incorporates the item at the receiver's natural insertion
/// position: sequences grow at the tail, keyed receivers insert or overwrite
/// the binding for the key, sets absorb duplicates. Each conformance fixes
/// the exact mutation through [`Observe::updated`], which relates the
/// receiver's state before and after the call.
pub trait Observe<T>: Sized {
    /// Whether the verifier's mathematical model of the receiver covers this
    /// item type. Hash- and ordering-based receivers are modelled only for
    /// key types whose `Hash` and `Ord` implementations behave as pure
    /// functions consistent with equality; for the other receivers this
    /// holds outright.
    spec fn model_applies() -> bool;

    /// The number of elements the receiver holds.
    spec fn obs_size(&self) -> nat;

    /// The receiver's mathematical view supports size reasoning: for set
    /// receivers, that the viewed set is finite (as it is for every value
    /// a program can build); for the other receivers this holds outright.
    spec fn obs_wf(&self) -> bool;

    /// The exact mutation one append performs: how the state `post` relates
    /// to the state `pre` after `item` is incorporated.
    spec fn updated(pre: Self, post: Self, item: T) -> bool;

    /// Size monotonicity: one append never shrinks the receiver.
    proof fn lemma_update_grows(pre: Self, post: Self, item: T)
        requires
            Self::updated(pre, post, item),
            pre.obs_wf(),
        ensures
            pre.obs_size() <= post.obs_size(),
            post.obs_wf(),
    ;

    /// Updates this observer with an item.
    fn update(&mut self, item: T)
        ensures
            Self::model_applies() ==> Self::updated(*old(self), *final(self), item),
    ;
}

impl<T> Observe<T> for Vec<T> {
    open spec fn model_applies() -> bool {
        true
    }

    open spec fn obs_size(&self) -> nat {
        self@.len()
    }

    open spec fn obs_wf(&self) -> bool {
        true
    }

    open spec fn updated(pre: Self, post: Self, item: T) -> bool {
        post@ == pre@.push(item)
    }

    proof fn lemma_update_grows(pre: Self, post: Self, item: T) {
    }

    fn update(&mut self, item: T)
        ensures
            Self::updated(*old(self), *final(self), item),
    {
        self.push(item);
    }
}

impl<T> Observe<T> for VecDeque<T> {
    open spec fn model_applies() -> bool {
        true
    }

    open spec fn obs_size(&self) -> nat {
        self@.len()
    }

    open spec fn obs_wf(&self) -> bool {
        true
    }

    open spec fn updated(pre: Self, post: Self, item: T) -> bool {
        post@ == pre@.push(item)
    }

    proof fn lemma_update_grows(pre: Self, post: Self, item: T) {
    }

    fn update(&mut self, item: T)
        ensures
            Self::updated(*old(self), *final(self), item),
    {
        self.push_back(item);
    }
}

impl<K: Eq + Hash, V> Observe<(K, V)> for HashMap<K, V> {
    open spec fn model_applies() -> bool {
        obeys_key_model::<K>()
    }

    open spec fn obs_size(&self) -> nat {
        self@.len()
    }

    open spec fn obs_wf(&self) -> bool {
        true
    }

    open spec fn updated(pre: Self, post: Self, item: (K, V)) -> bool {
        post@ == pre@.insert(item.0, item.1)
    }

    proof fn lemma_update_grows(pre: Self, post: Self, item: (K, V)) {
    }

    fn update(&mut self, item: (K, V))
        ensures
            Self::model_applies() ==> Self::updated(*old(self), *final(self), item),
    {
        let (k, v) = item;
        self.insert(k, v);
    }
}

impl<T: Eq + Hash> Observe<T> for HashSet<T> {
    open spec fn model_applies() -> bool {
        obeys_key_model::<T>()
    }

    open spec fn obs_size(&self) -> nat {
        self@.len()
    }

    open spec fn obs_wf(&self) -> bool {
        self@.finite()
    }

    open spec fn updated(pre: Self, post: Self, item: T) -> bool {
        post@ == pre@.insert(item)
    }

    proof fn lemma_update_grows(pre: Self, post: Self, item: T) {
    }

    fn update(&mut self, item: T)
        ensures
            Self::model_applies() ==> Self::updated(*old(self), *final(self), item),
    {
        self.insert(item);
    }
}

impl<K: Eq + Ord, V> Observe<(K, V)> for BTreeMap<K, V> {
    open spec fn model_applies() -> bool {
        obeys_cmp::<K>()
    }

    open spec fn obs_size(&self) -> nat {
        self@.len()
    }

    open spec fn obs_wf(&self) -> bool {
        true
    }

    open spec fn updated(pre: Self, post: Self, item: (K, V)) -> bool {
        post@ == pre@.insert(item.0, item.1)
    }

    proof fn lemma_update_grows(pre: Self, post: Self, item: (K, V)) {
    }

    fn update(&mut self, item: (K, V))
        ensures
            Self::model_applies() ==> Self::updated(*old(self), *final(self), item),
    {
        let (k, v) = item;
        self.insert(k, v);
    }
}

impl<T: Eq + Ord> Observe<T> for BTreeSet<T> {
    open spec fn model_applies() -> bool {
        obeys_cmp::<T>()
    }

    open spec fn obs_size(&self) -> nat {
        self@.len()
    }

    open spec fn obs_wf(&self) -> bool {
        self@.finite()
    }

    open spec fn updated(pre: Self, post: Self, item: T) -> bool {
        post@ == pre@.insert(item)
    }

    proof fn lemma_update_grows(pre: Self, post: Self, item: T) {
    }

    fn update(&mut self, item: T)
        ensures
            Self::model_applies() ==> Self::updated(*old(self), *final(self), item),
    {
        self.insert(item);
    }
}

/// Relies on `String::push` from std: appends the given `char` to the end
/// of this `String`.
pub assume_specification[ String::push ](s: &mut String, ch: char)
    ensures
        final(s)@ == old(s)@.push(ch),
;

/// Relies on `String::push_str` from std: appends a given string slice onto
/// the end of this `String`.
pub assume_specification[ String::push_str ](s: &mut String, string: &str)
    ensures
        final(s)@ == old(s)@ + string@,
;

impl Observe<char> for String {
    open spec fn model_applies() -> bool {
        true
    }

    open spec fn obs_size(&self) -> nat {
        self@.len()
    }

    open spec fn obs_wf(&self) -> bool {
        true
    }

    open spec fn updated(pre: Self, post: Self, item: char) -> bool {
        post@ == pre@.push(item)
    }

    proof fn lemma_update_grows(pre: Self, post: Self, item: char) {
    }

    fn update(&mut self, item: char)
        ensures
            Self::updated(*old(self), *final(self), item),
    {
        self.push(item);
    }
}

impl<'a> Observe<&'a str> for String {
    open spec fn model_applies() -> bool {
        true
    }

    open spec fn obs_size(&self) -> nat {
        self@.len()
    }

    open spec fn obs_wf(&self) -> bool {
        true
    }

    open spec fn updated(pre: Self, post: Self, item: &'a str) -> bool {
        post@ == pre@ + item@
    }

    proof fn lemma_update_grows(pre: Self, post: Self, item: &'a str) {
    }

    fn update(&mut self, item: &'a str)
        ensures
            Self::updated(*old(self), *final(self), item),
    {
        self.push_str(item);
    }
}

} // verus!
