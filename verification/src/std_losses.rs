//! `Loss` for standard-library types: counters, logs and sets of what was lost.
use std::collections::hash_map::RandomState;
use std::collections::{BTreeSet, HashSet};
use std::hash::Hash;
use vstd::laws_cmp::obeys_cmp;
use vstd::laws_eq::obeys_concrete_eq;
use vstd::prelude::*;
use vstd::std_specs::hash::{builds_valid_hashers, obeys_key_model};
use vstd::string::StringExecFns;

use crate::loss::{total_absorbs, Loss};

verus! {

broadcast use vstd::std_specs::hash::group_hash_axioms;

/// The model of saturating addition on `u64`.
pub open spec fn saturating_u64(a: u64, b: u64) -> u64 {
    if a + b > u64::MAX {
        u64::MAX
    } else {
        (a + b) as u64
    }
}

impl Loss for u64 {
    open spec fn zero_spec() -> u64 {
        0
    }

    open spec fn total_spec() -> u64 {
        u64::MAX
    }

    open spec fn combine_spec(a: u64, b: u64) -> u64 {
        saturating_u64(a, b)
    }

    fn zero() -> (r: u64) {
        0
    }

    fn total() -> (r: u64) {
        u64::MAX
    }

    fn is_zero(&self) -> (b: bool) {
        *self == 0
    }

    fn combine(self, other: u64) -> (r: u64) {
        self.saturating_add(other)
    }

    proof fn lemma_zero_left(x: u64) {
    }

    proof fn lemma_zero_right(x: u64) {
    }

    proof fn lemma_combine_assoc(a: u64, b: u64, c: u64) {
    }
}

/// Saturating addition on `u64` makes `u64::MAX` absorbing.
pub proof fn lemma_u64_total_absorbs()
    ensures
        total_absorbs::<u64>(),
{
}

/// A list of loss events: `combine` appends, `zero` and `total` are empty.
impl<T: Clone> Loss for Vec<T> {
    open spec fn zero_spec() -> Seq<T> {
        Seq::empty()
    }

    open spec fn total_spec() -> Seq<T> {
        Seq::empty()
    }

    open spec fn combine_spec(a: Seq<T>, b: Seq<T>) -> Seq<T> {
        a + b
    }

    fn zero() -> (r: Vec<T>) {
        Vec::new()
    }

    fn total() -> (r: Vec<T>) {
        Vec::new()
    }

    fn is_zero(&self) -> (b: bool) {
        let b = self.is_empty();
        proof {
            if !b {
                assert(self@.len() > 0);
            } else {
                assert(self@ =~= Seq::<T>::empty());
            }
        }
        b
    }

    fn combine(self, other: Vec<T>) -> (r: Vec<T>)
        ensures
            r@ == self@ + other@,
    {
        let mut joined = self;
        let mut rest = other;
        joined.append(&mut rest);
        joined
    }

    proof fn lemma_zero_left(x: Seq<T>) {
        assert(Seq::<T>::empty() + x =~= x);
    }

    proof fn lemma_zero_right(x: Seq<T>) {
        assert(x + Seq::<T>::empty() =~= x);
    }

    proof fn lemma_combine_assoc(a: Seq<T>, b: Seq<T>, c: Seq<T>) {
        assert((a + b) + c =~= a + (b + c));
    }
}

/// The separator between two non-empty loss messages.
pub open spec fn separator() -> Seq<char> {
    seq![';', ' ']
}

/// Two loss messages joined: with the separator when both are non-empty,
/// otherwise just the one that has text.
pub open spec fn join_messages(a: Seq<char>, b: Seq<char>) -> Seq<char> {
    if a.len() > 0 && b.len() > 0 {
        a + separator() + b
    } else {
        a + b
    }
}

/// A human-readable loss log: `combine` joins messages with `"; "`.
impl Loss for String {
    open spec fn zero_spec() -> Seq<char> {
        Seq::empty()
    }

    open spec fn total_spec() -> Seq<char> {
        Seq::empty()
    }

    open spec fn combine_spec(a: Seq<char>, b: Seq<char>) -> Seq<char> {
        join_messages(a, b)
    }

    fn zero() -> (r: String) {
        String::new()
    }

    fn total() -> (r: String) {
        String::new()
    }

    fn is_zero(&self) -> (b: bool) {
        let b = self.as_str().is_empty();
        proof {
            if b {
                assert(self@ =~= Seq::<char>::empty());
            }
        }
        b
    }

    fn combine(self, other: String) -> (r: String)
        ensures
            r@ == if self@.len() > 0 && other@.len() > 0 {
                self@ + seq![';', ' '] + other@
            } else {
                self@ + other@
            },
    {
        let mut joined = self;
        if !joined.as_str().is_empty() && !other.as_str().is_empty() {
            joined.append("; ");
            proof {
                reveal_strlit("; ");
                assert("; "@ =~= separator());
            }
        }
        joined.append(other.as_str());
        joined
    }

    proof fn lemma_zero_left(x: Seq<char>) {
        assert(Seq::<char>::empty() + x =~= x);
    }

    proof fn lemma_zero_right(x: Seq<char>) {
        assert(x + Seq::<char>::empty() =~= x);
    }

    proof fn lemma_combine_assoc(a: Seq<char>, b: Seq<char>, c: Seq<char>) {
        let s = separator();
        assert((a + s + b) + s + c =~= a + s + (b + s + c));
        assert((a + b) + c =~= a + (b + c));
        assert((a + s + b) + c =~= a + s + (b + c));
        assert((a + b) + s + c =~= a + (b + s + c));
    }
}

/// Two independent loss dimensions, combined component by component.
impl<A: Loss, B: Loss> Loss for (A, B) {
    open spec fn zero_spec() -> (A::V, B::V) {
        (A::zero_spec(), B::zero_spec())
    }

    open spec fn total_spec() -> (A::V, B::V) {
        (A::total_spec(), B::total_spec())
    }

    open spec fn combine_spec(a: (A::V, B::V), b: (A::V, B::V)) -> (A::V, B::V) {
        (A::combine_spec(a.0, b.0), B::combine_spec(a.1, b.1))
    }

    open spec fn obeys_combine_spec() -> bool {
        A::obeys_combine_spec() && B::obeys_combine_spec()
    }

    fn zero() -> (r: (A, B)) {
        (A::zero(), B::zero())
    }

    fn total() -> (r: (A, B)) {
        (A::total(), B::total())
    }

    fn is_zero(&self) -> (b: bool) {
        self.0.is_zero() && self.1.is_zero()
    }

    fn combine(self, other: (A, B)) -> (r: (A, B))
        ensures
            A::obeys_combine_spec() ==> r.0@ == A::combine_spec(self.0@, other.0@),
            B::obeys_combine_spec() ==> r.1@ == B::combine_spec(self.1@, other.1@),
    {
        (self.0.combine(other.0), self.1.combine(other.1))
    }

    proof fn lemma_zero_left(x: (A::V, B::V)) {
        A::lemma_zero_left(x.0);
        B::lemma_zero_left(x.1);
    }

    proof fn lemma_zero_right(x: (A::V, B::V)) {
        A::lemma_zero_right(x.0);
        B::lemma_zero_right(x.1);
    }

    proof fn lemma_combine_assoc(a: (A::V, B::V), b: (A::V, B::V), c: (A::V, B::V)) {
        A::lemma_combine_assoc(a.0, b.0, c.0);
        B::lemma_combine_assoc(a.1, b.1, c.1);
    }
}

/// A pair's `total` absorbs when the `total` of each component does.
pub proof fn lemma_pair_total_absorbs<A: Loss, B: Loss>()
    requires
        total_absorbs::<A>(),
        total_absorbs::<B>(),
    ensures
        total_absorbs::<(A, B)>(),
{
    assert forall|x: (A::V, B::V)|
        #![trigger <(A, B) as Loss>::combine_spec(x, <(A, B) as Loss>::total_spec())]
        #![trigger <(A, B) as Loss>::combine_spec(<(A, B) as Loss>::total_spec(), x)]
        <(A, B) as Loss>::combine_spec(x, <(A, B) as Loss>::total_spec()) == <(
            A,
            B,
        ) as Loss>::total_spec() && <(A, B) as Loss>::combine_spec(
            <(A, B) as Loss>::total_spec(),
            x,
        ) == <(A, B) as Loss>::total_spec() by {
        assert(A::combine_spec(x.0, A::total_spec()) == A::total_spec());
        assert(A::combine_spec(A::total_spec(), x.0) == A::total_spec());
        assert(B::combine_spec(x.1, B::total_spec()) == B::total_spec());
        assert(B::combine_spec(B::total_spec(), x.1) == B::total_spec());
    }
}

/// Calls `HashSet::extend`, which inserts every element of `other` into
/// `set`. Claimed: for keys whose `Eq` and `Hash` follow vstd's key model,
/// the set afterwards holds exactly the elements of both.
#[verifier::external_body]
fn hash_set_extend<T: Eq + Hash>(set: &mut HashSet<T>, other: HashSet<T>)
    ensures
        obeys_key_model::<T>() && builds_valid_hashers::<RandomState>() ==> final(set)@ == old(
            set,
        )@.union(other@),
{
    set.extend(other)
}

/// Deduplicated loss events: `combine` is set union, `zero` and `total` are empty.
impl<T: Eq + Hash + Clone> Loss for HashSet<T> {
    open spec fn zero_spec() -> Set<T> {
        Set::empty()
    }

    open spec fn total_spec() -> Set<T> {
        Set::empty()
    }

    open spec fn combine_spec(a: Set<T>, b: Set<T>) -> Set<T> {
        a.union(b)
    }

    open spec fn obeys_combine_spec() -> bool {
        obeys_key_model::<T>() && builds_valid_hashers::<RandomState>()
    }

    fn zero() -> (r: HashSet<T>) {
        HashSet::new()
    }

    fn total() -> (r: HashSet<T>) {
        HashSet::new()
    }

    fn is_zero(&self) -> (b: bool) {
        self.is_empty()
    }

    fn combine(self, other: HashSet<T>) -> (r: HashSet<T>) {
        let mut joined = self;
        hash_set_extend(&mut joined, other);
        joined
    }

    proof fn lemma_zero_left(x: Set<T>) {
        assert(Set::<T>::empty().union(x) =~= x);
    }

    proof fn lemma_zero_right(x: Set<T>) {
        assert(x.union(Set::<T>::empty()) =~= x);
    }

    proof fn lemma_combine_assoc(a: Set<T>, b: Set<T>, c: Set<T>) {
        assert(a.union(b).union(c) =~= a.union(b.union(c)));
    }
}

/// Calls `BTreeSet::extend`, which inserts every element of `other` into
/// `set`, keeping an element already present when an equal one comes in.
/// Claimed: for keys whose `Ord` follows vstd's comparison laws and whose
/// equality is identity, the set afterwards holds exactly the elements of
/// both. For keys with a coarser equality nothing is claimed.
#[verifier::external_body]
fn btree_set_extend<T: Ord>(set: &mut BTreeSet<T>, other: BTreeSet<T>)
    ensures
        obeys_cmp::<T>() && obeys_concrete_eq::<T>() ==> final(set)@ == old(set)@.union(other@),
{
    set.extend(other)
}

/// Ordered, deduplicated loss events: `combine` is set union.
impl<T: Ord + Clone> Loss for BTreeSet<T> {
    open spec fn zero_spec() -> Set<T> {
        Set::empty()
    }

    open spec fn total_spec() -> Set<T> {
        Set::empty()
    }

    open spec fn combine_spec(a: Set<T>, b: Set<T>) -> Set<T> {
        a.union(b)
    }

    open spec fn obeys_combine_spec() -> bool {
        obeys_cmp::<T>() && obeys_concrete_eq::<T>()
    }

    fn zero() -> (r: BTreeSet<T>) {
        BTreeSet::new()
    }

    fn total() -> (r: BTreeSet<T>) {
        BTreeSet::new()
    }

    fn is_zero(&self) -> (b: bool) {
        self.is_empty()
    }

    fn combine(self, other: BTreeSet<T>) -> (r: BTreeSet<T>) {
        let mut joined = self;
        btree_set_extend(&mut joined, other);
        joined
    }

    proof fn lemma_zero_left(x: Set<T>) {
        assert(Set::<T>::empty().union(x) =~= x);
    }

    proof fn lemma_zero_right(x: Set<T>) {
        assert(x.union(Set::<T>::empty()) =~= x);
    }

    proof fn lemma_combine_assoc(a: Set<T>, b: Set<T>, c: Set<T>) {
        assert(a.union(b).union(c) =~= a.union(b.union(c)));
    }
}

} // verus!
