use vstd::prelude::*;

verus! {

/// The identities of an address tree and of its queue.
#[derive(Clone, Copy, Debug, PartialEq, Eq)]
pub struct AddressContext {
    pub tree: [u8; 32],
    pub queue: [u8; 32],
}

/// An address tree and its queue, as positions in the packed account list.
#[derive(Clone, Copy, Debug, PartialEq, Eq)]
pub struct PackedAddressContext {
    pub tree_index: u8,
    pub queue_index: u8,
}

/// The output tree of a new account, as a position in the packed account list.
#[derive(Clone, Copy, Debug, PartialEq, Eq)]
pub struct PackedOutputContext {
    pub tree_index: u8,
}

/// Whether both positions of a packed address context fall inside a list of
/// `n` accounts.
pub open spec fn resolves(p: PackedAddressContext, n: nat) -> bool {
    (p.tree_index as nat) < n && (p.queue_index as nat) < n
}

impl PackedAddressContext {
    /// The identities that the positions name in `accounts`; `None` when a
    /// position falls outside the list.
    pub fn resolve(&self, accounts: &Vec<[u8; 32]>) -> (r: Option<AddressContext>)
        ensures
            r.is_some() <==> resolves(*self, accounts@.len()),
            r matches Some(c) ==> c.tree == accounts@[self.tree_index as int]
                && c.queue == accounts@[self.queue_index as int],
    {
        let t = self.tree_index as usize;
        let q = self.queue_index as usize;
        if t < accounts.len() && q < accounts.len() {
            Some(AddressContext { tree: accounts[t], queue: accounts[q] })
        } else {
            None
        }
    }
}

impl PackedOutputContext {
    /// Whether the position falls inside a list of `n` accounts.
    pub fn resolves_within(&self, n: usize) -> (r: bool)
        ensures
            r == ((self.tree_index as nat) < n),
    {
        (self.tree_index as usize) < n
    }
}

} // verus!
