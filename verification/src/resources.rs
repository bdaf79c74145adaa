//! The tables that a session keeps.

use std::collections::{HashMap, VecDeque};

use rand::seq::SliceRandom;
use vstd::prelude::*;
use vstd::seq_lib::{seq_to_set_is_finite, to_multiset_contains, to_multiset_len};
use vstd::set_lib::lemma_subset_equality;

use crate::common::ServerEntity;

verus! {

/// The players a side knows of: client id to the server's label for the
/// player.
pub struct Players {
    pub players: HashMap<u64, ServerEntity>,
}

impl View for Players {
    type V = Map<u64, ServerEntity>;

    open spec fn view(&self) -> Map<u64, ServerEntity> {
        self.players@
    }
}

impl Players {
    pub fn new() -> (players: Self)
        ensures
            players@ == Map::<u64, ServerEntity>::empty(),
    {
        Self { players: HashMap::new() }
    }

    pub fn get(&self, k: &u64) -> (entity: Option<&ServerEntity>)
        ensures
            entity == (if self@.contains_key(*k) {
                Some(&self@[*k])
            } else {
                None
            }),
    {
        broadcast use vstd::std_specs::hash::group_hash_axioms;

        self.players.get(k)
    }
}

/// `s` without its entry at `x`, where it has one.
pub open spec fn without(s: Seq<u64>, x: u64) -> Seq<u64> {
    if s.contains(x) {
        s.remove(s.index_of(x))
    } else {
        s
    }
}

/// Whether `a` holds just what `b` holds, each as often.
pub open spec fn is_permutation(a: Seq<u64>, b: Seq<u64>) -> bool {
    a.to_multiset() == b.to_multiset()
}

/// A sequence that holds just what a sequence without repeats holds, each as
/// often, has no repeats either, and the same entries.
pub proof fn lemma_permutation(a: Seq<u64>, b: Seq<u64>)
    requires
        is_permutation(a, b),
        b.no_duplicates(),
    ensures
        a.no_duplicates(),
        a.len() == b.len(),
        forall|x: u64| a.contains(x) <==> b.contains(x),
{
    b.lemma_multiset_has_no_duplicates();
    a.lemma_multiset_has_no_duplicates_conv();
    to_multiset_len(a);
    to_multiset_len(b);
    assert forall|x: u64| a.contains(x) <==> b.contains(x) by {
        to_multiset_contains(a, x);
        to_multiset_contains(b, x);
    }
}

/// A sequence as long as a sequence without repeats, and with every entry of
/// it, holds just what that one holds, each once.
proof fn lemma_same_entries_permutation(a: Seq<u64>, b: Seq<u64>)
    requires
        b.no_duplicates(),
        a.len() == b.len(),
        forall|i: int| 0 <= i < b.len() ==> a.contains(#[trigger] b[i]),
    ensures
        is_permutation(a, b),
{
    broadcast use seq_to_set_is_finite;

    b.unique_seq_to_set();
    a.lemma_cardinality_of_set();
    assert(b.to_set().subset_of(a.to_set())) by {
        assert forall|x: u64| b.to_set().contains(x) implies a.to_set().contains(x) by {
            let i = b.index_of(x);
        }
    }
    vstd::set_lib::lemma_len_subset(b.to_set(), a.to_set());
    lemma_subset_equality(b.to_set(), a.to_set());
    a.lemma_no_dup_set_cardinality();
    a.lemma_multiset_has_no_duplicates();
    b.lemma_multiset_has_no_duplicates();
    assert forall|x: u64| a.to_multiset().count(x) == b.to_multiset().count(x) by {
        to_multiset_contains(a, x);
        to_multiset_contains(b, x);
        assert(b.contains(x) == b.to_set().contains(x));
    }
    assert(a.to_multiset() =~= b.to_multiset());
}

/// `rand::seq::SliceRandom::shuffle` with the generator of
/// `rand::thread_rng`: puts `ids` into a random order, in place. Whatever
/// the order, the entries are the ones that were there, each as often as
/// before.
#[verifier::external_body]
fn shuffle(ids: &mut Vec<u64>)
    ensures
        is_permutation(final(ids)@, old(ids)@),
{
    ids.shuffle(&mut rand::thread_rng());
}

/// The given ids in a random order: the same ids, each as often as before.
pub fn shuffled(ids: Vec<u64>) -> (order: Vec<u64>)
    ensures
        is_permutation(order@, ids@),
{
    let mut order = ids;
    shuffle(&mut order);
    order
}

/// Whether `id` is among `ids`.
fn holds(ids: &Vec<u64>, id: u64) -> (found: bool)
    ensures
        found == ids@.contains(id),
{
    let mut i: usize = 0;
    while i < ids.len()
        invariant
            i <= ids.len(),
            forall|j: int| 0 <= j < i ==> ids@[j] != id,
        decreases ids.len() - i,
    {
        if ids[i] == id {
            return true;
        }
        i = i + 1;
    }
    false
}

/// Whether `order` holds just the entries of `ids`, each once.
pub(crate) fn is_permutation_of(order: &Vec<u64>, ids: &Vec<u64>) -> (same: bool)
    requires
        ids@.no_duplicates(),
    ensures
        same == is_permutation(order@, ids@),
{
    if order.len() != ids.len() {
        proof {
            to_multiset_len(order@);
            to_multiset_len(ids@);
        }
        return false;
    }
    let mut i: usize = 0;
    while i < ids.len()
        invariant
            i <= ids.len(),
            forall|j: int| 0 <= j < i ==> order@.contains(#[trigger] ids@[j]),
        decreases ids.len() - i,
    {
        if !holds(order, ids[i]) {
            proof {
                to_multiset_contains(order@, ids@[i as int]);
                to_multiset_contains(ids@, ids@[i as int]);
            }
            return false;
        }
        i = i + 1;
    }
    proof {
        lemma_same_entries_permutation(order@, ids@);
    }
    true
}

/// The players in the order in which their turns come.
pub struct TurnOrder {
    pub order: VecDeque<u64>,
}

impl View for TurnOrder {
    type V = Seq<u64>;

    open spec fn view(&self) -> Seq<u64> {
        self.order@
    }
}

impl TurnOrder {
    pub fn new() -> (turns: Self)
        ensures
            turns@ == Seq::<u64>::empty(),
    {
        Self { order: VecDeque::new() }
    }

    /// The turn order that `ids` spell out, the first of them first.
    pub fn from_ids(ids: &Vec<u64>) -> (turns: Self)
        ensures
            turns@ == ids@,
    {
        let mut order: VecDeque<u64> = VecDeque::new();
        let mut i: usize = 0;
        while i < ids.len()
            invariant
                i <= ids.len(),
                order@ == ids@.take(i as int),
            decreases ids.len() - i,
        {
            order.push_back(ids[i]);
            i = i + 1;
        }
        Self { order }
    }

    /// Takes `id` out of the turn order. The others keep their order.
    pub(crate) fn remove(&mut self, id: u64)
        requires
            old(self)@.no_duplicates(),
        ensures
            final(self)@ == without(old(self)@, id),
    {
        let mut i: usize = 0;
        while i < self.order.len()
            invariant
                i <= self.order.len(),
                self@ == old(self)@,
                self@.no_duplicates(),
                forall|j: int| 0 <= j < i ==> self@[j] != id,
            decreases self.order.len() - i,
        {
            if self.order[i] == id {
                self.order.remove(i);
                return ;
            }
            i = i + 1;
        }
    }
}

/// The identifier of the level that a match is played on.
#[derive(Clone)]
pub struct LevelName(pub String);

impl LevelName {
    pub fn new(name: &str) -> (level: Self)
        ensures
            level.0@ == name@,
    {
        Self(name.to_owned())
    }
}

impl Default for LevelName {
    fn default() -> (level: Self)
        ensures
            level.0@ == Seq::<char>::empty(),
    {
        Self(String::new())
    }
}

} // verus!
