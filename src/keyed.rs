//! Records found by a 128-bit key, and searching a sequence of them.
use crate::booking::{Booking, Room};
use crate::review::{Hotel, Review};
use vstd::prelude::*;

verus! {

/// A record that a ledger finds by a key.
pub trait Keyed {
    spec fn key(&self) -> u128;

    fn get_key(&self) -> (r: u128)
        ensures
            r == self.key(),
    ;
}

impl Keyed for Hotel {
    open spec fn key(&self) -> u128 {
        self.id
    }

    fn get_key(&self) -> (r: u128) {
        self.id
    }
}

impl Keyed for Room {
    open spec fn key(&self) -> u128 {
        self.id
    }

    fn get_key(&self) -> (r: u128) {
        self.id
    }
}

impl Keyed for Booking {
    open spec fn key(&self) -> u128 {
        self.id
    }

    fn get_key(&self) -> (r: u128) {
        self.id
    }
}

/// A review is found by the booking it reviews: a booking has at most one.
impl Keyed for Review {
    open spec fn key(&self) -> u128 {
        self.booking_id
    }

    fn get_key(&self) -> (r: u128) {
        self.booking_id
    }
}

pub open spec fn contains_key<T: Keyed>(s: Seq<T>, k: u128) -> bool {
    exists|i: int| 0 <= i < s.len() && #[trigger] s[i].key() == k
}

/// No two records share a key.
pub open spec fn keys_unique<T: Keyed>(s: Seq<T>) -> bool {
    forall|i: int, j: int|
        0 <= i < s.len() && 0 <= j < s.len() && #[trigger] s[i].key() == #[trigger] s[j].key()
            ==> i == j
}

/// The position of the record with key `k`.
pub open spec fn index_of<T: Keyed>(s: Seq<T>, k: u128) -> int {
    choose|i: int| 0 <= i < s.len() && #[trigger] s[i].key() == k
}

/// Where keys are unique, the record with key `k` stands at the one position that holds it.
pub proof fn lemma_index_of<T: Keyed>(s: Seq<T>, k: u128, i: int)
    requires
        keys_unique(s),
        0 <= i < s.len(),
        s[i].key() == k,
    ensures
        index_of(s, k) == i,
        contains_key(s, k),
{
    let j = index_of(s, k);
    assert(0 <= j < s.len() && s[j].key() == k);
}

/// The position of the record with key `k` in `v`, if any.
pub fn find_key<T: Keyed>(v: &Vec<T>, k: u128) -> (r: Option<usize>)
    ensures
        match r {
            Some(i) => i < v@.len() && v@[i as int].key() == k,
            None => !contains_key(v@, k),
        },
{
    let mut i: usize = 0;
    while i < v.len()
        invariant
            0 <= i <= v@.len(),
            forall|j: int| 0 <= j < i ==> (#[trigger] v@[j]).key() != k,
        decreases v@.len() - i,
    {
        if v[i].get_key() == k {
            return Some(i);
        }
        i += 1;
    }
    None
}

} // verus!
