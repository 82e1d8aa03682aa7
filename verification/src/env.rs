//! What a contract call reads of its host, apart from the contract's storage.

use vstd::prelude::*;

use crate::address::Address;

verus! {

/// The facts about one call that its host knows.
pub struct Env {
    /// The address of the contract being called.
    pub contract: Address,
    /// The ledger's time, in seconds.
    pub timestamp: u64,
    /// The addresses that authorized the call.
    pub authorized: Vec<Address>,
}

impl Env {
    /// Whether `address` authorized the call.
    pub open spec fn authorizes(self, address: Address) -> bool {
        self.authorized@.contains(address)
    }

    /// Whether `address` authorized the call.
    pub fn is_authorized(&self, address: &Address) -> (r: bool)
        ensures
            r == self.authorizes(*address),
    {
        contains_address(&self.authorized, address)
    }
}

/// Whether `address` is in `list`.
pub fn contains_address(list: &Vec<Address>, address: &Address) -> (r: bool)
    ensures
        r == list@.contains(*address),
{
    let mut i: usize = 0;
    while i < list.len()
        invariant
            i <= list@.len(),
            forall|j: int| 0 <= j < i ==> list@[j] != *address,
        decreases list@.len() - i,
    {
        if list[i] == *address {
            assert(list@[i as int] == *address);
            return true;
        }
        i = i + 1;
    }
    false
}

/// A copy of `list`.
pub fn copy_addresses(list: &Vec<Address>) -> (r: Vec<Address>)
    ensures
        r@ == list@,
{
    let mut r: Vec<Address> = Vec::new();
    let mut i: usize = 0;
    while i < list.len()
        invariant
            i <= list@.len(),
            r@ == list@.subrange(0, i as int),
        decreases list@.len() - i,
    {
        r.push(list[i]);
        i = i + 1;
        assert(r@ =~= list@.subrange(0, i as int));
    }
    assert(list@.subrange(0, i as int) =~= list@);
    r
}

/// The larger of zero and `a - b`.
pub open spec fn minus_or_zero(a: int, b: int) -> int {
    if a >= b {
        a - b
    } else {
        0
    }
}

} // verus!
