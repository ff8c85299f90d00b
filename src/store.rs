use vstd::prelude::*;
use crate::create::CreateRequest;
use crate::record::{encoding, Hotkey};

verus! {

/// How the state store answers one submitted creation request.
#[derive(Clone, Copy, Debug, PartialEq, Eq)]
pub enum Outcome {
    /// The leaf was appended and its address is now occupied.
    Accepted,
    /// The asserted root index is not the current one; retry with a fresh proof.
    RejectedStale,
    /// The signer is not the store's authority for the owner.
    RejectedAuth,
    /// The proof does not hold.
    RejectedProof,
    /// The address is already occupied.
    RejectedDuplicate,
}

/// A leaf of the output tree: an address and the encoded record stored there.
#[derive(Clone, Debug, PartialEq, Eq)]
pub struct Leaf {
    pub address: [u8; 32],
    pub data: Vec<u8>,
}

/// The admission rules of the state store that creation requests are
/// submitted to: the current root of its address tree, the signer it expects,
/// and the leaves appended so far.
pub struct AddressStore {
    pub current_root: u16,
    pub authority: [u8; 32],
    pub leaves: Vec<Leaf>,
}

/// Whether some leaf sits at `address`.
pub open spec fn occupied(leaves: Seq<Leaf>, address: Seq<u8>) -> bool {
    exists|i: int| 0 <= i < leaves.len() && (#[trigger] leaves[i]).address@ == address
}

/// Whether no two leaves share an address.
pub open spec fn addresses_unique(leaves: Seq<Leaf>) -> bool {
    forall|i: int, j: int|
        0 <= i < leaves.len() && 0 <= j < leaves.len() && i != j
            ==> (#[trigger] leaves[i]).address@ != (#[trigger] leaves[j]).address@
}

/// The store's answer to a request, checked in this order: root, signer,
/// proof, address.
pub open spec fn verdict(
    root: u16,
    authority: Seq<u8>,
    leaves: Seq<Leaf>,
    req: CreateRequest,
    proof_valid: bool,
) -> Outcome {
    if req.new_address.root_index != root {
        Outcome::RejectedStale
    } else if req.signer@ != authority {
        Outcome::RejectedAuth
    } else if !proof_valid {
        Outcome::RejectedProof
    } else if occupied(leaves, req.account.address@) {
        Outcome::RejectedDuplicate
    } else {
        Outcome::Accepted
    }
}

/// The leaves after a request is accepted.
pub open spec fn admitted(leaves: Seq<Leaf>, req: CreateRequest) -> Seq<Leaf> {
    leaves.push(Leaf { address: req.account.address, data: req.account.data })
}

/// Whether two keys hold the same bytes.
fn same_key(a: &[u8; 32], b: &[u8; 32]) -> (r: bool)
    ensures
        r == (a@ == b@),
{
    let mut i: usize = 0;
    while i < 32
        invariant
            i <= 32,
            a@.len() == 32,
            b@.len() == 32,
            forall|j: int| 0 <= j < i ==> a@[j] == b@[j],
        decreases 32 - i,
    {
        if a[i] != b[i] {
            return false;
        }
        i = i + 1;
    }
    assert(a@ =~= b@);
    true
}

impl AddressStore {
    /// Whether no two leaves share an address.
    pub open spec fn wf(&self) -> bool {
        addresses_unique(self.leaves@)
    }

    /// An empty store whose address tree is at `root`.
    pub fn new(authority: [u8; 32], root: u16) -> (r: AddressStore)
        ensures
            r.wf(),
            r.current_root == root,
            r.authority == authority,
            r.leaves@.len() == 0,
    {
        AddressStore { current_root: root, authority, leaves: Vec::new() }
    }

    /// Rotates the address tree to its next root; earlier root indices go stale.
    pub fn advance_root(&mut self)
        ensures
            final(self).current_root == (if old(self).current_root == u16::MAX {
                0
            } else {
                (old(self).current_root + 1) as u16
            }),
            final(self).authority == old(self).authority,
            final(self).leaves == old(self).leaves,
    {
        if self.current_root == u16::MAX {
            self.current_root = 0;
        } else {
            self.current_root = self.current_root + 1;
        }
    }

    /// Whether a leaf sits at `address`.
    pub fn is_occupied(&self, address: &[u8; 32]) -> (r: bool)
        ensures
            r == occupied(self.leaves@, address@),
    {
        let mut i: usize = 0;
        while i < self.leaves.len()
            invariant
                i <= self.leaves@.len(),
                forall|j: int| 0 <= j < i ==> (#[trigger] self.leaves@[j]).address@ != address@,
            decreases self.leaves@.len() - i,
        {
            if same_key(&self.leaves[i].address, address) {
                return true;
            }
            i = i + 1;
        }
        false
    }

    /// Answers one request, whose proof the proof checker found valid or not,
    /// and appends its leaf when it is accepted. The request is consumed.
    pub fn submit(&mut self, req: CreateRequest, proof_valid: bool) -> (r: Outcome)
        requires
            old(self).wf(),
        ensures
            r == verdict(old(self).current_root, old(self).authority@, old(self).leaves@, req, proof_valid),
            final(self).leaves@ == (if r == Outcome::Accepted {
                admitted(old(self).leaves@, req)
            } else {
                old(self).leaves@
            }),
            final(self).current_root == old(self).current_root,
            final(self).authority == old(self).authority,
            final(self).wf(),
    {
        if req.new_address.root_index != self.current_root {
            return Outcome::RejectedStale;
        }
        if !same_key(&req.signer, &self.authority) {
            return Outcome::RejectedAuth;
        }
        if !proof_valid {
            return Outcome::RejectedProof;
        }
        if self.is_occupied(&req.account.address) {
            return Outcome::RejectedDuplicate;
        }
        let ghost before = self.leaves@;
        self.leaves.push(Leaf { address: req.account.address, data: req.account.data });
        proof {
            assert forall|i: int, j: int|
                0 <= i < self.leaves@.len() && 0 <= j < self.leaves@.len() && i != j
                    implies (#[trigger] self.leaves@[i]).address@ != (#[trigger] self.leaves@[j]).address@ by {
                if i < before.len() && j < before.len() {
                    assert(before[i] == self.leaves@[i]);
                    assert(before[j] == self.leaves@[j]);
                } else if i < before.len() {
                    assert(before[i] == self.leaves@[i]);
                } else {
                    assert(before[j] == self.leaves@[j]);
                }
            }
        }
        Outcome::Accepted
    }

    /// The record stored at `address`, if a leaf sits there and holds the
    /// encoding of one.
    pub fn record_at(&self, address: &[u8; 32]) -> (r: Option<Hotkey>)
        requires
            self.wf(),
        ensures
            r matches Some(h) ==> exists|i: int|
                0 <= i < self.leaves@.len() && (#[trigger] self.leaves@[i]).address@ == address@
                    && self.leaves@[i].data@ == encoding(h),
            r is None ==> forall|i: int|
                0 <= i < self.leaves@.len() && (#[trigger] self.leaves@[i]).address@ == address@
                    ==> self.leaves@[i].data@.len() != crate::record::HOTKEY_LEN,
    {
        let mut i: usize = 0;
        while i < self.leaves.len()
            invariant
                i <= self.leaves@.len(),
                self.wf(),
                forall|j: int| 0 <= j < i ==> (#[trigger] self.leaves@[j]).address@ != address@,
            decreases self.leaves@.len() - i,
        {
            if same_key(&self.leaves[i].address, address) {
                let r = Hotkey::decode(self.leaves[i].data.as_slice());
                proof {
                    assert forall|j: int|
                        0 <= j < self.leaves@.len() && (#[trigger] self.leaves@[j]).address@ == address@
                            implies j == i by {
                        if j != i as int {
                            assert(self.leaves@[i as int].address@ != self.leaves@[j].address@);
                        }
                    }
                }
                return r;
            }
            i = i + 1;
        }
        None
    }
}

/// Of two submissions that place a record at the same address, at most one
/// is accepted: once the first is, the second is refused, and as a duplicate
/// whenever its root, signer and proof would have passed.
pub proof fn lemma_at_most_once(
    root: u16,
    authority: Seq<u8>,
    leaves: Seq<Leaf>,
    first: CreateRequest,
    second: CreateRequest,
    first_valid: bool,
    second_valid: bool,
)
    requires
        first.account.address@ == second.account.address@,
        verdict(root, authority, leaves, first, first_valid) == Outcome::Accepted,
    ensures
        verdict(root, authority, admitted(leaves, first), second, second_valid) != Outcome::Accepted,
        second.new_address.root_index == root && second.signer@ == authority && second_valid
            ==> verdict(root, authority, admitted(leaves, first), second, second_valid) == Outcome::RejectedDuplicate,
{
    let after = admitted(leaves, first);
    assert(after[leaves.len() as int].address@ == second.account.address@);
    assert(occupied(after, second.account.address@));
}

/// A submission whose asserted root index is not the current root is
/// refused as stale, never accepted.
pub proof fn lemma_stale_root_rejected(
    root: u16,
    authority: Seq<u8>,
    leaves: Seq<Leaf>,
    req: CreateRequest,
    proof_valid: bool,
)
    requires
        req.new_address.root_index != root,
    ensures
        verdict(root, authority, leaves, req, proof_valid) == Outcome::RejectedStale,
{
}

} // verus!
