use std::str::FromStr;

use anchor_lang::solana_program::pubkey::Pubkey;
use compressed_aa::attempt::Attempt;
use compressed_aa::address::{derive_address, derive_address_seed};
use compressed_aa::context::{AddressContext, PackedAddressContext, PackedOutputContext};
use compressed_aa::create::{create_hotkey, CompressedProof, CpiContext, CreateRequest};
use compressed_aa::payload::{new_account, CreateError};
use compressed_aa::record::Hotkey;
use compressed_aa::signer::{cpi_signer_tag, find_signer};
use compressed_aa::store::{AddressStore, Outcome};

const WALLET: [u8; 32] = [7u8; 32];
const CONTROLLER: [u8; 32] = [9u8; 32];
const TREE: [u8; 32] = [21u8; 32];
const QUEUE: [u8; 32] = [22u8; 32];
const OUTPUT_TREE: [u8; 32] = [23u8; 32];

fn program_id() -> [u8; 32] {
    Pubkey::from_str("B3XHqAM39stZu3Rxd6NTRZJtVUsPZ1G6NsvLPETjV3v1").unwrap().to_bytes()
}

fn accounts() -> Vec<[u8; 32]> {
    vec![TREE, QUEUE, OUTPUT_TREE]
}

fn packed() -> PackedAddressContext {
    PackedAddressContext { tree_index: 0, queue_index: 1 }
}

fn output() -> PackedOutputContext {
    PackedOutputContext { tree_index: 2 }
}

fn sample_proof(fill: u8) -> CompressedProof {
    CompressedProof { a: [fill; 32], b: [fill; 64], c: [fill; 32] }
}

fn request(wallet: [u8; 32], controller: [u8; 32], root: u16, fill: u8) -> CreateRequest {
    create_hotkey(&program_id(), sample_proof(fill), output(), packed(), root, wallet, controller, None, &accounts()).unwrap()
}

#[test]
fn round_trip_keeps_the_record() {
    let h = Hotkey { wallet: WALLET, controller: CONTROLLER };
    let bytes = h.encode();
    assert_eq!(bytes.len(), 64);
    assert_eq!(&bytes[..32], &WALLET[..]);
    assert_eq!(&bytes[32..], &CONTROLLER[..]);
    assert_eq!(Hotkey::decode(&bytes), Some(h));
}

#[test]
fn round_trip_at_the_boundaries() {
    for h in [
        Hotkey { wallet: [0u8; 32], controller: [0u8; 32] },
        Hotkey { wallet: [255u8; 32], controller: [255u8; 32] },
        Hotkey { wallet: [0u8; 32], controller: [255u8; 32] },
    ] {
        assert_eq!(Hotkey::decode(&h.encode()), Some(h));
    }
}

#[test]
fn decode_refuses_other_lengths() {
    assert_eq!(Hotkey::decode(&[]), None);
    assert_eq!(Hotkey::decode(&[1u8; 63]), None);
    assert_eq!(Hotkey::decode(&[1u8; 65]), None);
}

#[test]
fn truncated_fields_fit_the_field_and_are_stable() {
    let h = Hotkey { wallet: WALLET, controller: CONTROLLER };
    let (w, c) = h.truncated_fields().unwrap();
    assert_eq!(w[0], 0);
    assert_eq!(c[0], 0);
    assert_ne!(w, WALLET);
    assert_ne!(w, c);
    let again = Hotkey::decode(&h.encode()).unwrap().truncated_fields().unwrap();
    assert_eq!(again, (w, c));
}

#[test]
fn data_hash_is_stable_and_depends_on_the_record() {
    let h = Hotkey { wallet: WALLET, controller: CONTROLLER };
    let g = Hotkey { wallet: CONTROLLER, controller: WALLET };
    let a = h.data_hash().unwrap();
    assert_eq!(Hotkey::decode(&h.encode()).unwrap().data_hash().unwrap(), a);
    assert_ne!(g.data_hash().unwrap(), a);
}

#[test]
fn discriminator_tags_the_type_name() {
    assert_eq!(Hotkey::discriminator(), Some([106, 100, 133, 175, 2, 202, 185, 11]));
}

#[test]
fn address_seed_is_deterministic() {
    let ctx = AddressContext { tree: TREE, queue: QUEUE };
    let parts = vec![WALLET.to_vec(), CONTROLLER.to_vec()];
    let a = derive_address_seed(&parts, &program_id(), &ctx);
    let b = derive_address_seed(&parts, &program_id(), &ctx);
    assert_eq!(a, b);
    assert_eq!(a[0], 0);
    let h = Hotkey { wallet: WALLET, controller: CONTROLLER };
    assert_eq!(h.address_seed(&program_id(), &ctx), a);
}

#[test]
fn address_seed_is_sensitive_to_order_owner_and_tree() {
    let ctx = AddressContext { tree: TREE, queue: QUEUE };
    let parts = vec![WALLET.to_vec(), CONTROLLER.to_vec()];
    let swapped = vec![CONTROLLER.to_vec(), WALLET.to_vec()];
    let base = derive_address_seed(&parts, &program_id(), &ctx);
    assert_ne!(derive_address_seed(&swapped, &program_id(), &ctx), base);
    assert_ne!(derive_address_seed(&parts, &[1u8; 32], &ctx), base);
    let other_tree = AddressContext { tree: [30u8; 32], queue: QUEUE };
    assert_ne!(derive_address_seed(&parts, &program_id(), &other_tree), base);
    let other_queue = AddressContext { tree: TREE, queue: [31u8; 32] };
    assert_eq!(derive_address_seed(&parts, &program_id(), &other_queue), base);
}

#[test]
fn address_differs_from_its_seed() {
    let ctx = AddressContext { tree: TREE, queue: QUEUE };
    let seed = derive_address_seed(&vec![WALLET.to_vec(), CONTROLLER.to_vec()], &program_id(), &ctx);
    let a = derive_address(&TREE, &seed).unwrap();
    assert_eq!(a[0], 0);
    assert_ne!(a, seed);
    assert_eq!(derive_address(&TREE, &seed), Some(a));
    assert_ne!(derive_address(&[30u8; 32], &seed).unwrap(), a);
}

#[test]
fn signer_takes_the_smallest_bump() {
    let tag = cpi_signer_tag();
    assert_eq!(tag, b"cpi_signer".to_vec());
    let owner = program_id();
    let (signer, bump) = find_signer(&tag, &owner).unwrap();
    let program = Pubkey::new_from_array(owner);
    for b in 0..bump {
        assert!(Pubkey::create_program_address(&[tag.as_slice(), &[b]], &program).is_err());
    }
    let expected = Pubkey::create_program_address(&[tag.as_slice(), &[bump]], &program).unwrap();
    assert_eq!(signer, expected.to_bytes());
    assert_eq!(find_signer(&tag, &owner), Some((signer, bump)));
}

#[test]
fn signer_needs_short_seeds() {
    let tag = vec![1u8; 33];
    assert_eq!(find_signer(&tag, &program_id()), None);
}

#[test]
fn packed_context_resolves_within_the_list() {
    let list = accounts();
    assert_eq!(packed().resolve(&list), Some(AddressContext { tree: TREE, queue: QUEUE }));
    assert_eq!(PackedAddressContext { tree_index: 0, queue_index: 3 }.resolve(&list), None);
    assert!(output().resolves_within(3));
    assert!(!output().resolves_within(2));
}

#[test]
fn new_account_carries_the_record() {
    let h = Hotkey { wallet: WALLET, controller: CONTROLLER };
    let ctx = AddressContext { tree: TREE, queue: QUEUE };
    let seed = h.address_seed(&program_id(), &ctx);
    let (acc, params) = new_account(&h, &seed, &program_id(), output(), packed(), 5, &accounts()).unwrap();
    assert_eq!(acc.owner, program_id());
    assert_eq!(acc.lamports, 0);
    assert_eq!(acc.address, derive_address(&TREE, &seed).unwrap());
    assert_eq!(acc.data, h.encode());
    assert_eq!(acc.data_hash, h.data_hash().unwrap());
    assert_eq!(acc.discriminator, [106, 100, 133, 175, 2, 202, 185, 11]);
    assert_eq!(acc.output_tree_index, 2);
    assert_eq!(params.seed, seed);
    assert_eq!(params.address_tree_index, 0);
    assert_eq!(params.address_queue_index, 1);
    assert_eq!(params.root_index, 5);
}

#[test]
fn new_account_refuses_unresolved_positions() {
    let h = Hotkey { wallet: WALLET, controller: CONTROLLER };
    let seed = [0u8; 32];
    let bad_output = PackedOutputContext { tree_index: 3 };
    assert_eq!(new_account(&h, &seed, &program_id(), bad_output, packed(), 5, &accounts()), Err(CreateError::UnresolvedIndex));
    let bad_addr = PackedAddressContext { tree_index: 4, queue_index: 1 };
    assert_eq!(new_account(&h, &seed, &program_id(), output(), bad_addr, 5, &accounts()), Err(CreateError::UnresolvedIndex));
}

#[test]
fn create_hotkey_builds_the_request() {
    let cpi = Some(CpiContext { set_context: true, first_set_context: false, cpi_context_account_index: 2 });
    let req = create_hotkey(&program_id(), sample_proof(3), output(), packed(), 8, WALLET, CONTROLLER, cpi, &accounts()).unwrap();
    let h = Hotkey { wallet: WALLET, controller: CONTROLLER };
    let seed = h.address_seed(&program_id(), &AddressContext { tree: TREE, queue: QUEUE });
    assert_eq!(req.proof, sample_proof(3));
    assert_eq!(req.cpi_context, cpi);
    assert_eq!(req.new_address.seed, seed);
    assert_eq!(req.new_address.root_index, 8);
    assert_eq!(req.account.address, derive_address(&TREE, &seed).unwrap());
    assert_eq!(Hotkey::decode(&req.account.data), Some(h));
    assert_eq!((req.signer, req.signer_bump), find_signer(&cpi_signer_tag(), &program_id()).unwrap());
}

#[test]
fn create_hotkey_refuses_unresolved_positions() {
    let bad = PackedAddressContext { tree_index: 9, queue_index: 1 };
    assert_eq!(create_hotkey(&program_id(), sample_proof(3), output(), bad, 8, WALLET, CONTROLLER, None, &accounts()), Err(CreateError::UnresolvedIndex));
}

fn store(root: u16) -> AddressStore {
    let (signer, _) = find_signer(&cpi_signer_tag(), &program_id()).unwrap();
    AddressStore::new(signer, root)
}

#[test]
fn test_compressed_aa() {
    let mut s = store(4);
    let req = request(WALLET, CONTROLLER, 4, 1);
    let address = req.account.address;
    assert_eq!(s.submit(req, true), Outcome::Accepted);
    assert_eq!(s.leaves.len(), 1);
    let hotkey = s.record_at(&address).unwrap();
    assert_eq!(hotkey.controller, CONTROLLER);
    assert_eq!(hotkey.wallet, WALLET);
}

#[test]
fn accepted_record_can_be_read_back() {
    let mut s = store(4);
    let req = request(WALLET, CONTROLLER, 4, 1);
    let address = req.account.address;
    assert!(!s.is_occupied(&address));
    assert_eq!(s.submit(req, true), Outcome::Accepted);
    assert!(s.is_occupied(&address));
    assert_eq!(s.record_at(&address), Some(Hotkey { wallet: WALLET, controller: CONTROLLER }));
    assert_eq!(s.record_at(&[1u8; 32]), None);
}

#[test]
fn same_seeds_are_refused_as_duplicate() {
    let mut s = store(4);
    assert_eq!(s.submit(request(WALLET, CONTROLLER, 4, 1), true), Outcome::Accepted);
    let before = s.leaves.clone();
    assert_eq!(s.submit(request(WALLET, CONTROLLER, 4, 2), true), Outcome::RejectedDuplicate);
    assert_eq!(s.leaves, before);
    assert_eq!(s.submit(request(CONTROLLER, WALLET, 4, 2), true), Outcome::Accepted);
    assert_eq!(s.leaves.len(), 2);
}

#[test]
fn stale_root_is_refused() {
    let mut s = store(4);
    s.advance_root();
    assert_eq!(s.current_root, 5);
    assert_eq!(s.submit(request(WALLET, CONTROLLER, 4, 1), true), Outcome::RejectedStale);
    assert!(s.leaves.is_empty());
    assert_eq!(s.submit(request(WALLET, CONTROLLER, 5, 1), true), Outcome::Accepted);
}

#[test]
fn root_index_wraps_around() {
    let mut s = store(u16::MAX);
    s.advance_root();
    assert_eq!(s.current_root, 0);
}

#[test]
fn bad_signer_and_bad_proof_are_refused() {
    let mut s = AddressStore::new([5u8; 32], 4);
    assert_eq!(s.submit(request(WALLET, CONTROLLER, 4, 1), true), Outcome::RejectedAuth);
    let mut s = store(4);
    assert_eq!(s.submit(request(WALLET, CONTROLLER, 4, 1), false), Outcome::RejectedProof);
    assert!(s.leaves.is_empty());
}

#[test]
fn attempt_runs_built_submitted_finished() {
    let sent = Attempt::Built.submit().unwrap();
    assert_eq!(sent, Attempt::Submitted);
    assert_eq!(Attempt::Built.answer(Outcome::Accepted), None);
    let done = sent.answer(Outcome::RejectedStale).unwrap();
    assert_eq!(done, Attempt::Finished(Outcome::RejectedStale));
    assert_eq!(done.submit(), None);
    assert_eq!(done.answer(Outcome::Accepted), None);
}

#[test]
fn only_a_stale_root_is_retryable() {
    assert!(Outcome::RejectedStale.is_retryable());
    assert!(!Outcome::Accepted.is_retryable());
    assert!(!Outcome::RejectedProof.is_retryable());
    assert!(!Outcome::RejectedAuth.is_retryable());
    assert!(!Outcome::RejectedDuplicate.is_retryable());
}
