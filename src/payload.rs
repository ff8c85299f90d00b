use vstd::prelude::*;
use crate::context::{resolves, PackedAddressContext, PackedOutputContext};
use crate::hashing::address_of;
use crate::address::derive_address;
use crate::record::{encoding, record_discriminator, record_hash, Hotkey};

verus! {

/// Why a creation request could not be built.
#[derive(Clone, Copy, Debug, PartialEq, Eq)]
pub enum CreateError {
    /// A packed position falls outside the supplied account list.
    UnresolvedIndex,
    /// The record's commitment or its type tag could not be hashed.
    Hashing,
    /// The address tree and seed could not be hashed into an address.
    AddressDerivation,
    /// No bump gives the program a signer address.
    NoSignerBump,
}

/// The new compressed account that carries a record.
#[derive(Clone, Debug, PartialEq, Eq)]
pub struct NewAccount {
    pub owner: [u8; 32],
    pub lamports: u64,
    pub address: [u8; 32],
    pub discriminator: [u8; 8],
    pub data: Vec<u8>,
    pub data_hash: [u8; 32],
    pub output_tree_index: u8,
}

/// The registration of a new address in an address tree.
#[derive(Clone, Copy, Debug, PartialEq, Eq)]
pub struct NewAddressParams {
    pub seed: [u8; 32],
    pub address_tree_index: u8,
    pub address_queue_index: u8,
    pub root_index: u16,
}

/// Whether every packed position falls inside a list of `n` accounts.
pub open spec fn all_resolve(output: PackedOutputContext, addr: PackedAddressContext, n: nat) -> bool {
    resolves(addr, n) && (output.tree_index as nat) < n
}

/// Whether the record's commitment and its type tag can both be hashed.
pub open spec fn hashes_ok(h: Hotkey) -> bool {
    record_hash(h).is_some() && record_discriminator().is_some()
}

/// The error that building the account for `h` meets, if any, in the order
/// in which the inputs are checked.
pub open spec fn build_error(
    h: Hotkey,
    seed: Seq<u8>,
    output: PackedOutputContext,
    addr: PackedAddressContext,
    accounts: Seq<[u8; 32]>,
) -> Option<CreateError> {
    if !all_resolve(output, addr, accounts.len()) {
        Some(CreateError::UnresolvedIndex)
    } else if !hashes_ok(h) {
        Some(CreateError::Hashing)
    } else if address_of(accounts[addr.tree_index as int]@, seed) is None {
        Some(CreateError::AddressDerivation)
    } else {
        None
    }
}

/// Whether `acc` is the account that carries `h` for `owner` at the address
/// that `seed` takes in the address tree at `tree`.
pub open spec fn is_new_account(
    acc: NewAccount,
    h: Hotkey,
    seed: Seq<u8>,
    owner: Seq<u8>,
    output: PackedOutputContext,
    tree: Seq<u8>,
) -> bool {
    &&& acc.owner@ == owner
    &&& acc.lamports == 0
    &&& address_of(tree, seed) == Some(acc.address@)
    &&& record_discriminator() == Some(acc.discriminator@)
    &&& acc.data@ == encoding(h)
    &&& record_hash(h) == Some(acc.data_hash@)
    &&& acc.output_tree_index == output.tree_index
}

/// Builds the new account that carries `record` and the registration of its
/// address, resolving the packed positions against `accounts`.
pub fn new_account(
    record: &Hotkey,
    address_seed: &[u8; 32],
    owner: &[u8; 32],
    output: PackedOutputContext,
    addr: PackedAddressContext,
    root_index: u16,
    accounts: &Vec<[u8; 32]>,
) -> (r: Result<(NewAccount, NewAddressParams), CreateError>)
    ensures
        match r {
            Ok(_) => build_error(*record, address_seed@, output, addr, accounts@) is None,
            Err(e) => build_error(*record, address_seed@, output, addr, accounts@) == Some(e),
        },
        r matches Ok((acc, params)) ==> is_new_account(
            acc,
            *record,
            address_seed@,
            owner@,
            output,
            accounts@[addr.tree_index as int]@,
        ) && params == (NewAddressParams {
            seed: *address_seed,
            address_tree_index: addr.tree_index,
            address_queue_index: addr.queue_index,
            root_index,
        }),
{
    let ctx = match addr.resolve(accounts) {
        Some(c) => c,
        None => return Err(CreateError::UnresolvedIndex),
    };
    if !output.resolves_within(accounts.len()) {
        return Err(CreateError::UnresolvedIndex);
    }
    let data_hash = match record.data_hash() {
        Some(d) => d,
        None => return Err(CreateError::Hashing),
    };
    let discriminator = match Hotkey::discriminator() {
        Some(d) => d,
        None => return Err(CreateError::Hashing),
    };
    let address = match derive_address(&ctx.tree, address_seed) {
        Some(a) => a,
        None => return Err(CreateError::AddressDerivation),
    };
    let account = NewAccount {
        owner: *owner,
        lamports: 0,
        address,
        discriminator,
        data: record.encode(),
        data_hash,
        output_tree_index: output.tree_index,
    };
    let params = NewAddressParams {
        seed: *address_seed,
        address_tree_index: addr.tree_index,
        address_queue_index: addr.queue_index,
        root_index,
    };
    Ok((account, params))
}

} // verus!
