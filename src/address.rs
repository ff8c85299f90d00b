use vstd::prelude::*;
use crate::context::AddressContext;
use crate::hashing::{address, address_of, address_seed, address_seed_of};
use crate::record::{seed_parts, Hotkey};

verus! {

/// Derives the seed of an address from ordered seed parts, the owning
/// program and the address tree. The seed's leading byte is always zero.
pub fn derive_address_seed(parts: &Vec<Vec<u8>>, owner: &[u8; 32], ctx: &AddressContext) -> (r: [u8; 32])
    ensures
        r@ == address_seed_of(parts@.map_values(|p: Vec<u8>| p@), owner@, ctx.tree@),
        r@[0] == 0,
{
    address_seed(parts, owner, ctx)
}

/// The public address that a seed takes in an address tree; `None` when the
/// tree and seed cannot be hashed into the field.
pub fn derive_address(tree: &[u8; 32], seed: &[u8; 32]) -> (r: Option<[u8; 32]>)
    ensures
        r.is_some() <==> address_of(tree@, seed@).is_some(),
        r matches Some(a) ==> address_of(tree@, seed@) == Some(a@),
{
    address(tree, seed)
}

/// The seed that places a record owned by `owner` in the tree of `ctx`.
pub open spec fn record_seed(h: Hotkey, owner: Seq<u8>, ctx: AddressContext) -> Seq<u8> {
    address_seed_of(seed_parts(h), owner, ctx.tree@)
}

impl Hotkey {
    /// The address seed of the record: its wallet, then its controller, under
    /// the owning program and the address tree.
    pub fn address_seed(&self, owner: &[u8; 32], ctx: &AddressContext) -> (r: [u8; 32])
        ensures
            r@ == record_seed(*self, owner@, *ctx),
            r@[0] == 0,
    {
        let parts = self.seed_parts();
        derive_address_seed(&parts, owner, ctx)
    }
}

/// Deriving the seed and the address twice from the same seed parts, owner
/// and tree gives the same result: the derivation depends on nothing else.
pub proof fn lemma_derivation_deterministic(
    h: Hotkey,
    g: Hotkey,
    owner: Seq<u8>,
    ctx: AddressContext,
)
    requires
        h.wallet@ == g.wallet@,
        h.controller@ == g.controller@,
    ensures
        record_seed(h, owner, ctx) == record_seed(g, owner, ctx),
        address_of(ctx.tree@, record_seed(h, owner, ctx)) == address_of(ctx.tree@, record_seed(g, owner, ctx)),
{
    assert(seed_parts(h) =~= seed_parts(g));
}

} // verus!
