use vstd::prelude::*;
use crate::hashing::{program_address, program_address_of};

verus! {

/// The domain tag from which the program's signer is derived.
pub open spec fn signer_tag() -> Seq<u8> {
    seq![99u8, 112u8, 105u8, 95u8, 115u8, 105u8, 103u8, 110u8, 101u8, 114u8]
}

/// The seeds of a derived signer: the domain tag, then the bump as one byte.
pub open spec fn bump_seeds(tag: Seq<u8>, bump: u8) -> Seq<Seq<u8>> {
    seq![tag, seq![bump]]
}

/// The signer address that `bump` gives, if it lies off the curve.
pub open spec fn signer_at(tag: Seq<u8>, owner: Seq<u8>, bump: u8) -> Option<Seq<u8>> {
    program_address_of(bump_seeds(tag, bump), owner)
}

/// The domain tag of the signer that authorizes record creation
/// (`cpi_signer`).
pub fn cpi_signer_tag() -> (r: Vec<u8>)
    ensures
        r@ == signer_tag(),
{
    let r: Vec<u8> = vec![99u8, 112u8, 105u8, 95u8, 115u8, 105u8, 103u8, 110u8, 101u8, 114u8];
    assert(r@ =~= signer_tag());
    r
}

/// Finds the program-derived signer of `owner` under `tag`: the smallest
/// bump whose derived address has no private key, with that address.
pub fn find_signer(tag: &Vec<u8>, owner: &[u8; 32]) -> (r: Option<([u8; 32], u8)>)
    ensures
        r matches Some((a, b)) ==> signer_at(tag@, owner@, b) == Some(a@)
            && forall|c: u8| c < b ==> (#[trigger] signer_at(tag@, owner@, c)) is None,
        r is None ==> forall|c: u8| (#[trigger] signer_at(tag@, owner@, c)) is None,
{
    let mut bump: u16 = 0;
    while bump < 256
        invariant
            bump <= 256,
            forall|c: u8| (c as u16) < bump ==> (#[trigger] signer_at(tag@, owner@, c)) is None,
        decreases 256 - bump,
    {
        let b = bump as u8;
        let mut first: Vec<u8> = Vec::new();
        let mut i: usize = 0;
        while i < tag.len()
            invariant
                i <= tag@.len(),
                first@ == tag@.subrange(0, i as int),
            decreases tag@.len() - i,
        {
            first.push(tag[i]);
            i = i + 1;
            assert(first@ =~= tag@.subrange(0, i as int));
        }
        assert(first@ =~= tag@);
        let mut second: Vec<u8> = Vec::new();
        second.push(b);
        assert(second@ =~= seq![b]);
        let mut seeds: Vec<Vec<u8>> = Vec::new();
        seeds.push(first);
        seeds.push(second);
        assert(seeds@.map_values(|s: Vec<u8>| s@) =~= bump_seeds(tag@, b));
        match program_address(&seeds, owner) {
            Some(a) => {
                return Some((a, b));
            },
            None => {},
        }
        bump = bump + 1;
    }
    None
}

} // verus!
