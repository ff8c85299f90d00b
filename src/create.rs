use vstd::prelude::*;
use crate::address::record_seed;
use crate::context::{resolves, AddressContext, PackedAddressContext, PackedOutputContext};
use crate::payload::{build_error, is_new_account, new_account, CreateError, NewAccount, NewAddressParams};
use crate::record::Hotkey;
use crate::signer::{cpi_signer_tag, find_signer, signer_at, signer_tag};

verus! {

/// A succinct proof of non-inclusion of the new address and of the output
/// tree's root, carried through to the verifier unchanged.
#[derive(Clone, Copy, Debug, PartialEq, Eq)]
pub struct CompressedProof {
    pub a: [u8; 32],
    pub b: [u8; 64],
    pub c: [u8; 32],
}

/// Batching context shared with other calls to the verifier.
#[derive(Clone, Copy, Debug, PartialEq, Eq)]
pub struct CpiContext {
    pub set_context: bool,
    pub first_set_context: bool,
    pub cpi_context_account_index: u8,
}

/// Everything the verifier needs to append one new `Hotkey` leaf.
#[derive(Clone, Debug, PartialEq, Eq)]
pub struct CreateRequest {
    pub proof: CompressedProof,
    pub new_address: NewAddressParams,
    pub account: NewAccount,
    pub signer: [u8; 32],
    pub signer_bump: u8,
    pub cpi_context: Option<CpiContext>,
}

/// The address tree and queue that a resolved packed context names.
pub open spec fn resolved(addr: PackedAddressContext, accounts: Seq<[u8; 32]>) -> AddressContext {
    AddressContext { tree: accounts[addr.tree_index as int], queue: accounts[addr.queue_index as int] }
}

/// Whether no bump gives `owner` a signer address under the creation tag.
pub open spec fn no_signer(owner: Seq<u8>) -> bool {
    forall|c: u8| (#[trigger] signer_at(signer_tag(), owner, c)) is None
}

/// The error that creating the record meets, if any.
pub open spec fn create_error(
    owner: Seq<u8>,
    output: PackedOutputContext,
    addr: PackedAddressContext,
    h: Hotkey,
    accounts: Seq<[u8; 32]>,
) -> Option<CreateError> {
    if !resolves(addr, accounts.len()) {
        Some(CreateError::UnresolvedIndex)
    } else {
        let seed = record_seed(h, owner, resolved(addr, accounts));
        match build_error(h, seed, output, addr, accounts) {
            Some(e) => Some(e),
            None => if no_signer(owner) {
                Some(CreateError::NoSignerBump)
            } else {
                None
            },
        }
    }
}

/// Builds the request that creates the record `{wallet, controller}` owned
/// by `owner`: derives its address seed from the wallet and the controller,
/// builds the new account and its address registration, and derives the
/// program's signer. The proof and the root index are passed on unchanged.
pub fn create_hotkey(
    owner: &[u8; 32],
    proof: CompressedProof,
    output: PackedOutputContext,
    addr: PackedAddressContext,
    root_index: u16,
    wallet: [u8; 32],
    controller: [u8; 32],
    cpi_context: Option<CpiContext>,
    accounts: &Vec<[u8; 32]>,
) -> (r: Result<CreateRequest, CreateError>)
    ensures
        match r {
            Ok(_) => create_error(owner@, output, addr, Hotkey { wallet, controller }, accounts@) is None,
            Err(e) => create_error(owner@, output, addr, Hotkey { wallet, controller }, accounts@) == Some(e),
        },
        r matches Ok(req) ==> {
            let h = Hotkey { wallet, controller };
            let ctx = resolved(addr, accounts@);
            &&& req.proof == proof
            &&& req.cpi_context == cpi_context
            &&& req.new_address.seed@ == record_seed(h, owner@, ctx)
            &&& req.new_address.address_tree_index == addr.tree_index
            &&& req.new_address.address_queue_index == addr.queue_index
            &&& req.new_address.root_index == root_index
            &&& is_new_account(req.account, h, req.new_address.seed@, owner@, output, ctx.tree@)
            &&& signer_at(signer_tag(), owner@, req.signer_bump) == Some(req.signer@)
            &&& forall|c: u8| c < req.signer_bump ==> (#[trigger] signer_at(signer_tag(), owner@, c)) is None
        },
{
    let ctx = match addr.resolve(accounts) {
        Some(c) => c,
        None => return Err(CreateError::UnresolvedIndex),
    };
    let hotkey = Hotkey { wallet, controller };
    let seed = hotkey.address_seed(owner, &ctx);
    let (account, new_address) = match new_account(&hotkey, &seed, owner, output, addr, root_index, accounts) {
        Ok(p) => p,
        Err(e) => return Err(e),
    };
    let tag = cpi_signer_tag();
    let (signer, signer_bump) = match find_signer(&tag, owner) {
        Some(s) => s,
        None => return Err(CreateError::NoSignerBump),
    };
    Ok(CreateRequest { proof, new_address, account, signer, signer_bump, cpi_context })
}

} // verus!
