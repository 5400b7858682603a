//! The one-time-signature scheme: deterministic key derivation, term
//! hashing, signing and verification.
//!
//! A keypair covers the 256 bits of a SHA-256 digest. For each bit
//! position there are two 32-byte secret blocks, one committing to a zero
//! bit and one to a one bit; the public key holds the hash of each block.
//! A signature reveals, for each digest bit, the secret block matching
//! that bit. Every block is a hash of the derivation seed, so the whole
//! keypair — and therefore the signature — is a pure function of the seed.

use vstd::prelude::*;
use crate::agreement::PublicKey;
use crate::encoding::{clone_bytes, terms_message, views_of_blocks, views_of_strings};
use crate::hashing::{sha256, sha256_of};

verus! {

/// The number of digest bits a one-time key covers.
pub const KEY_BLOCKS: usize = 256;

/// A one-time Lamport private key: for each digest bit, the secret block
/// revealed when the bit is zero and the one revealed when it is one.
pub struct PrivateKey {
    pub zero_blocks: Vec<Vec<u8>>,
    pub one_blocks: Vec<Vec<u8>>,
}

/// The secret block for bit position `i` with bit value `b`: the hash of
/// the seed extended by the position and the bit value.
pub open spec fn secret_block(seed: Seq<u8>, i: int, b: u8) -> Seq<u8> {
    sha256_of(seed.push(i as u8).push(b))
}

/// All 256 secret blocks for bit value `b`, in position order.
pub open spec fn key_blocks(seed: Seq<u8>, b: u8) -> Seq<Seq<u8>> {
    Seq::new(KEY_BLOCKS as nat, |i: int| secret_block(seed, i, b))
}

/// The public blocks matching a column of secret blocks: the hash of each.
pub open spec fn public_blocks(blocks: Seq<Seq<u8>>) -> Seq<Seq<u8>> {
    Seq::new(blocks.len(), |i: int| sha256_of(blocks[i]))
}

/// The digest a signature over `terms` commits to: the hash of the terms
/// concatenated in sequence order.
pub open spec fn digest_of(terms: Seq<Seq<char>>) -> Seq<u8> {
    sha256_of(terms_message(terms))
}

/// Bit `i` of a digest, low bit of the low byte first.
pub open spec fn digest_bit(d: Seq<u8>, i: int) -> bool {
    (d[i / 8] >> ((i % 8) as u8)) & 1 == 1
}

/// The signature over digest `d`: for each bit position, the secret block
/// matching the bit's value.
pub open spec fn signature_blocks(d: Seq<u8>, zeros: Seq<Seq<u8>>, ones: Seq<Seq<u8>>) -> Seq<
    Seq<u8>,
> {
    Seq::new(
        KEY_BLOCKS as nat,
        |i: int|
            if digest_bit(d, i) {
                ones[i]
            } else {
                zeros[i]
            },
    )
}

/// A signature is valid for a digest and public key when each revealed
/// block hashes to the public block selected by the matching digest bit.
pub open spec fn signature_valid(
    d: Seq<u8>,
    sig: Seq<Seq<u8>>,
    pk_zeros: Seq<Seq<u8>>,
    pk_ones: Seq<Seq<u8>>,
) -> bool {
    forall|i: int|
        0 <= i < KEY_BLOCKS ==> #[trigger] sha256_of(sig[i]) == if digest_bit(d, i) {
            pk_ones[i]
        } else {
            pk_zeros[i]
        }
}

/// Derives the private key determined by `seed`: both columns of secret
/// blocks, each block the hash of the seed extended by its position and
/// bit value.
pub fn derive_private_key_from_seed(seed: &Vec<u8>) -> (sk: PrivateKey)
    ensures
        sk.zero_blocks@.len() == KEY_BLOCKS,
        sk.one_blocks@.len() == KEY_BLOCKS,
        views_of_blocks(sk.zero_blocks@) == key_blocks(seed@, 0),
        views_of_blocks(sk.one_blocks@) == key_blocks(seed@, 1),
{
    let mut zero_blocks: Vec<Vec<u8>> = Vec::new();
    let mut one_blocks: Vec<Vec<u8>> = Vec::new();
    let mut i: usize = 0;
    while i < KEY_BLOCKS
        invariant
            i <= KEY_BLOCKS,
            zero_blocks@.len() == i,
            one_blocks@.len() == i,
            forall|j: int| 0 <= j < i ==> #[trigger] zero_blocks@[j]@ == secret_block(seed@, j, 0),
            forall|j: int| 0 <= j < i ==> #[trigger] one_blocks@[j]@ == secret_block(seed@, j, 1),
        decreases KEY_BLOCKS - i,
    {
        let mut msg0 = clone_bytes(seed);
        msg0.push(i as u8);
        msg0.push(0);
        zero_blocks.push(sha256(&msg0));
        let mut msg1 = clone_bytes(seed);
        msg1.push(i as u8);
        msg1.push(1);
        one_blocks.push(sha256(&msg1));
        i = i + 1;
    }
    proof {
        assert(views_of_blocks(zero_blocks@) =~= key_blocks(seed@, 0));
        assert(views_of_blocks(one_blocks@) =~= key_blocks(seed@, 1));
    }
    PrivateKey { zero_blocks, one_blocks }
}

/// Derives the public key of a private key by hashing each secret block.
pub fn derive_public_key(sk: &PrivateKey) -> (pk: PublicKey)
    ensures
        pk.zero_blocks@.len() == sk.zero_blocks@.len(),
        pk.one_blocks@.len() == sk.one_blocks@.len(),
        pk@.zero_blocks == public_blocks(views_of_blocks(sk.zero_blocks@)),
        pk@.one_blocks == public_blocks(views_of_blocks(sk.one_blocks@)),
{
    let zero_blocks = hash_column(&sk.zero_blocks);
    let one_blocks = hash_column(&sk.one_blocks);
    proof {
        assert(views_of_blocks(zero_blocks@) =~= public_blocks(views_of_blocks(sk.zero_blocks@)));
        assert(views_of_blocks(one_blocks@) =~= public_blocks(views_of_blocks(sk.one_blocks@)));
    }
    PublicKey { zero_blocks, one_blocks }
}

/// Hashes each block of a column.
fn hash_column(blocks: &Vec<Vec<u8>>) -> (r: Vec<Vec<u8>>)
    ensures
        r@.len() == blocks@.len(),
        forall|j: int| 0 <= j < r@.len() ==> #[trigger] r@[j]@ == sha256_of(blocks@[j]@),
{
    let mut r: Vec<Vec<u8>> = Vec::new();
    let mut i: usize = 0;
    while i < blocks.len()
        invariant
            i <= blocks@.len(),
            r@.len() == i,
            forall|j: int| 0 <= j < i ==> #[trigger] r@[j]@ == sha256_of(blocks@[j]@),
        decreases blocks@.len() - i,
    {
        r.push(sha256(&blocks[i]));
        i = i + 1;
    }
    r
}

/// Hashes the terms of an agreement, concatenated in sequence order, into
/// the digest that is signed. Equal terms sequences give equal digests.
pub fn hash_terms(terms: &Vec<String>) -> (r: Vec<u8>)
    ensures
        r@ == digest_of(views_of_strings(terms@)),
        r@.len() == 32,
{
    let msg = crate::encoding::concat_terms_bytes(terms);
    sha256(&msg)
}

/// Signs a digest: reveals, for each digest bit, the matching secret
/// block of the private key.
pub fn sign(digest: &Vec<u8>, sk: &PrivateKey) -> (r: Vec<Vec<u8>>)
    requires
        digest@.len() == 32,
        sk.zero_blocks@.len() == KEY_BLOCKS,
        sk.one_blocks@.len() == KEY_BLOCKS,
    ensures
        r@.len() == KEY_BLOCKS,
        views_of_blocks(r@) == signature_blocks(
            digest@,
            views_of_blocks(sk.zero_blocks@),
            views_of_blocks(sk.one_blocks@),
        ),
{
    let mut r: Vec<Vec<u8>> = Vec::new();
    let mut i: usize = 0;
    while i < KEY_BLOCKS
        invariant
            i <= KEY_BLOCKS,
            digest@.len() == 32,
            sk.zero_blocks@.len() == KEY_BLOCKS,
            sk.one_blocks@.len() == KEY_BLOCKS,
            r@.len() == i,
            forall|j: int|
                0 <= j < i ==> #[trigger] r@[j]@ == if digest_bit(digest@, j) {
                    sk.one_blocks@[j]@
                } else {
                    sk.zero_blocks@[j]@
                },
        decreases KEY_BLOCKS - i,
    {
        let byte = digest[i / 8];
        let bit = (byte >> ((i % 8) as u8)) & 1;
        if bit == 1 {
            r.push(clone_bytes(&sk.one_blocks[i]));
        } else {
            r.push(clone_bytes(&sk.zero_blocks[i]));
        }
        i = i + 1;
    }
    proof {
        assert(views_of_blocks(r@) =~= signature_blocks(
            digest@,
            views_of_blocks(sk.zero_blocks@),
            views_of_blocks(sk.one_blocks@),
        ));
    }
    r
}

/// Compares two byte vectors for content equality.
fn bytes_eq(a: &Vec<u8>, b: &Vec<u8>) -> (r: bool)
    ensures
        r == (a@ == b@),
{
    if a.len() != b.len() {
        return false;
    }
    let mut i: usize = 0;
    while i < a.len()
        invariant
            a@.len() == b@.len(),
            i <= a@.len(),
            forall|j: int| 0 <= j < i ==> a@[j] == b@[j],
        decreases a@.len() - i,
    {
        if a[i] != b[i] {
            return false;
        }
        i = i + 1;
    }
    proof {
        assert(a@ =~= b@);
    }
    true
}

/// Checks a signature against a digest and a public key: each revealed
/// block must hash to the public block selected by the matching digest
/// bit. This is the auditor's operation; the protocol itself never calls
/// it.
pub fn verify(digest: &Vec<u8>, signature: &Vec<Vec<u8>>, pk: &PublicKey) -> (r: bool)
    requires
        digest@.len() == 32,
        signature@.len() == KEY_BLOCKS,
        pk.zero_blocks@.len() == KEY_BLOCKS,
        pk.one_blocks@.len() == KEY_BLOCKS,
    ensures
        r == signature_valid(
            digest@,
            views_of_blocks(signature@),
            views_of_blocks(pk.zero_blocks@),
            views_of_blocks(pk.one_blocks@),
        ),
{
    let mut i: usize = 0;
    while i < KEY_BLOCKS
        invariant
            i <= KEY_BLOCKS,
            digest@.len() == 32,
            signature@.len() == KEY_BLOCKS,
            pk.zero_blocks@.len() == KEY_BLOCKS,
            pk.one_blocks@.len() == KEY_BLOCKS,
            forall|j: int|
                0 <= j < i ==> #[trigger] sha256_of(signature@[j]@) == if digest_bit(digest@, j) {
                    pk.one_blocks@[j]@
                } else {
                    pk.zero_blocks@[j]@
                },
        decreases KEY_BLOCKS - i,
    {
        let hashed = sha256(&signature[i]);
        let byte = digest[i / 8];
        let bit = (byte >> ((i % 8) as u8)) & 1;
        let expected = if bit == 1 {
            &pk.one_blocks[i]
        } else {
            &pk.zero_blocks[i]
        };
        if !bytes_eq(&hashed, expected) {
            proof {
                let sv = views_of_blocks(signature@);
                let zv = views_of_blocks(pk.zero_blocks@);
                let ov = views_of_blocks(pk.one_blocks@);
                assert(bit == 1 <==> digest_bit(digest@, i as int));
                assert(sv[i as int] == signature@[i as int]@);
                assert(sha256_of(sv[i as int]) != (if digest_bit(digest@, i as int) {
                    ov[i as int]
                } else {
                    zv[i as int]
                }));
                assert(!signature_valid(digest@, sv, zv, ov));
            }
            return false;
        }
        i = i + 1;
    }
    true
}

/// Law: signing a digest with the private key of a seed always produces a
/// signature that verifies against that digest and the matching public
/// key.
pub proof fn lemma_sign_then_verify(seed: Seq<u8>, d: Seq<u8>)
    ensures
        signature_valid(
            d,
            signature_blocks(d, key_blocks(seed, 0), key_blocks(seed, 1)),
            public_blocks(key_blocks(seed, 0)),
            public_blocks(key_blocks(seed, 1)),
        ),
{
}

} // verus!
