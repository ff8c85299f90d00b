use vstd::prelude::*;
use crate::hashing::{field_reduction_of, poseidon, poseidon_of, reduce_to_field, sha256, sha256_of};

verus! {

/// Length of an identity (a public key) in bytes.
pub const KEY_LEN: usize = 32;

/// Length of the canonical encoding of a `Hotkey`.
pub const HOTKEY_LEN: usize = 64;

/// A record binding a wallet identity to a controller identity.
#[derive(Clone, Copy, Debug, PartialEq, Eq)]
pub struct Hotkey {
    pub wallet: [u8; 32],
    pub controller: [u8; 32],
}

/// The canonical encoding: the wallet's bytes, then the controller's.
pub open spec fn encoding(h: Hotkey) -> Seq<u8> {
    h.wallet@ + h.controller@
}

/// The seed parts that place a record: the wallet, then the controller.
pub open spec fn seed_parts(h: Hotkey) -> Seq<Seq<u8>> {
    seq![h.wallet@, h.controller@]
}

/// Each field of a record reduced into the proof system's scalar field.
pub open spec fn reduced_fields(h: Hotkey) -> Option<(Seq<u8>, Seq<u8>)> {
    match (field_reduction_of(h.wallet@), field_reduction_of(h.controller@)) {
        (Some(w), Some(c)) => Some((w, c)),
        _ => None,
    }
}

/// The commitment to a record: the Poseidon hash of its reduced fields.
pub open spec fn record_hash(h: Hotkey) -> Option<Seq<u8>> {
    match reduced_fields(h) {
        Some((w, c)) => poseidon_of(seq![w, c]),
        None => None,
    }
}

/// The name of the record type, whose digest tags its encoded data.
pub open spec fn record_type_name() -> Seq<u8> {
    seq![72u8, 111u8, 116u8, 107u8, 101u8, 121u8]
}

/// The tag of the record type: the first eight bytes of the digest of its name.
pub open spec fn record_discriminator() -> Option<Seq<u8>> {
    match sha256_of(record_type_name()) {
        Some(d) => Some(d.subrange(0, 8)),
        None => None,
    }
}

/// Copies `KEY_LEN` bytes of `src` starting at `start` into a fresh key.
fn key_at(src: &[u8], start: usize) -> (r: [u8; 32])
    requires
        start + KEY_LEN <= src@.len(),
    ensures
        r@ == src@.subrange(start as int, start + KEY_LEN),
{
    let n = src.len();
    let mut k = [0u8; 32];
    let mut i: usize = 0;
    while i < KEY_LEN
        invariant
            i <= KEY_LEN,
            n == src@.len(),
            start + KEY_LEN <= src@.len(),
            k@.len() == KEY_LEN,
            forall|j: int| 0 <= j < i ==> k@[j] == src@[start + j],
        decreases KEY_LEN - i,
    {
        k[i] = src[start + i];
        i = i + 1;
    }
    assert(k@ =~= src@.subrange(start as int, start + KEY_LEN));
    k
}

/// Appends the bytes of `k` to `out`.
fn push_key(out: &mut Vec<u8>, k: &[u8; 32])
    ensures
        final(out)@ == old(out)@ + k@,
{
    let mut i: usize = 0;
    while i < KEY_LEN
        invariant
            i <= KEY_LEN,
            k@.len() == KEY_LEN,
            out@ == old(out)@ + k@.subrange(0, i as int),
        decreases KEY_LEN - i,
    {
        out.push(k[i]);
        i = i + 1;
        assert(out@ =~= old(out)@ + k@.subrange(0, i as int));
    }
    assert(k@.subrange(0, KEY_LEN as int) =~= k@);
}

impl Hotkey {
    /// The canonical byte encoding of the record.
    pub fn encode(&self) -> (r: Vec<u8>)
        ensures
            r@ == encoding(*self),
            r@.len() == HOTKEY_LEN,
    {
        let mut out: Vec<u8> = Vec::new();
        push_key(&mut out, &self.wallet);
        push_key(&mut out, &self.controller);
        assert(out@ =~= encoding(*self));
        out
    }

    /// Reads a record back from its encoding; refuses any other length.
    pub fn decode(bytes: &[u8]) -> (r: Option<Hotkey>)
        ensures
            r.is_some() <==> bytes@.len() == HOTKEY_LEN,
            r matches Some(h) ==> encoding(h) == bytes@,
    {
        if bytes.len() != HOTKEY_LEN {
            return None;
        }
        let wallet = key_at(bytes, 0);
        let controller = key_at(bytes, KEY_LEN);
        let h = Hotkey { wallet, controller };
        assert(encoding(h) =~= bytes@);
        Some(h)
    }
}

impl Hotkey {
    /// The seed parts that place the record: its wallet, then its controller.
    pub fn seed_parts(&self) -> (r: Vec<Vec<u8>>)
        ensures
            r@.map_values(|p: Vec<u8>| p@) == seed_parts(*self),
    {
        let mut w: Vec<Vec<u8>> = Vec::new();
        let mut wallet: Vec<u8> = Vec::new();
        push_key(&mut wallet, &self.wallet);
        let mut controller: Vec<u8> = Vec::new();
        push_key(&mut controller, &self.controller);
        w.push(wallet);
        w.push(controller);
        assert(wallet@ =~= self.wallet@);
        assert(controller@ =~= self.controller@);
        assert(w@.map_values(|p: Vec<u8>| p@) =~= seed_parts(*self));
        w
    }

    /// Both fields reduced into the proof system's scalar field; `None` when
    /// a field cannot be reduced.
    pub fn truncated_fields(&self) -> (r: Option<([u8; 32], [u8; 32])>)
        ensures
            r.is_some() <==> reduced_fields(*self).is_some(),
            r matches Some((w, c)) ==> reduced_fields(*self) == Some((w@, c@)),
    {
        let w = reduce_to_field(self.wallet.as_slice());
        let c = reduce_to_field(self.controller.as_slice());
        match (w, c) {
            (Some(w), Some(c)) => Some((w, c)),
            _ => None,
        }
    }

    /// The commitment to the record, computed over its reduced fields.
    pub fn data_hash(&self) -> (r: Option<[u8; 32]>)
        ensures
            r.is_some() <==> record_hash(*self).is_some(),
            r matches Some(v) ==> record_hash(*self) == Some(v@),
    {
        match self.truncated_fields() {
            Some((w, c)) => poseidon(&w, &c),
            None => None,
        }
    }

    /// The tag that marks data as an encoded `Hotkey`.
    pub fn discriminator() -> (r: Option<[u8; 8]>)
        ensures
            r.is_some() <==> record_discriminator().is_some(),
            r matches Some(d) ==> record_discriminator() == Some(d@),
    {
        let name: [u8; 6] = [72u8, 111u8, 116u8, 107u8, 101u8, 121u8];
        assert(name@ =~= record_type_name());
        match sha256(name.as_slice()) {
            Some(digest) => {
                let mut tag = [0u8; 8];
                let mut i: usize = 0;
                while i < 8
                    invariant
                        i <= 8,
                        digest@.len() == 32,
                        tag@.len() == 8,
                        forall|j: int| 0 <= j < i ==> tag@[j] == digest@[j],
                    decreases 8 - i,
                {
                    tag[i] = digest[i];
                    i = i + 1;
                }
                assert(tag@ =~= digest@.subrange(0, 8));
                Some(tag)
            },
            None => None,
        }
    }
}

/// Decoding the encoding of a record gives the record back, and the
/// encoding of two records is the same only when the records are.
pub proof fn lemma_round_trip(h: Hotkey, g: Hotkey)
    ensures
        encoding(h).len() == HOTKEY_LEN,
        encoding(h) == encoding(g) ==> h == g,
{
    if encoding(h) == encoding(g) {
        assert(h.wallet@ =~= encoding(h).subrange(0, 32));
        assert(g.wallet@ =~= encoding(g).subrange(0, 32));
        assert(h.controller@ =~= encoding(h).subrange(32, 64));
        assert(g.controller@ =~= encoding(g).subrange(32, 64));
        assert(h.wallet == g.wallet);
        assert(h.controller == g.controller);
    }
}

/// The reduced field values and the commitment of a record are the same
/// whether computed when it is created or re-derived later from any copy
/// that carries the same encoding.
pub proof fn lemma_truncation_consistent(h: Hotkey, g: Hotkey)
    requires
        encoding(g) == encoding(h),
    ensures
        reduced_fields(g) == reduced_fields(h),
        record_hash(g) == record_hash(h),
{
    lemma_round_trip(h, g);
}

} // verus!
