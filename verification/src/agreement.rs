//! The agreement data model: parties, terms, and the two-slot proof state.
//!
//! An [`Agreement`] starts as a draft (no proof, no keys), gains a first
//! signature and public key through the auto-sign step, and a second pair
//! through the counter-sign step. The `proof_of_agreement` and
//! `public_keys` fields move together, slot for slot, and a filled slot is
//! never overwritten.
//!
//! Contracts speak about these types through mathematical views
//! ([`AgreementView`], [`SignatureView`], [`PublicKeyView`]) built from
//! sequences, so that equality of content is sequence equality.

use vstd::prelude::*;
use crate::encoding::{views_of_blocks, views_of_strings};

verus! {

/// A party to an agreement, named by an opaque identity string.
pub struct User {
    pub identity: String,
}

impl View for User {
    type V = Seq<char>;

    open spec fn view(&self) -> Seq<char> {
        self.identity@
    }
}

/// A one-time Lamport public key: for each of the 256 digest bits, the
/// hash of the secret block for bit value zero and for bit value one.
pub struct PublicKey {
    pub zero_blocks: Vec<Vec<u8>>,
    pub one_blocks: Vec<Vec<u8>>,
}

/// One party's signature: the signed block selection together with a
/// snapshot of the exact agreement state it attests to.
pub struct Signature {
    /// The agreement state in effect when the signature was produced —
    /// an independent copy, not a live reference.
    pub agrees_to: Box<Agreement>,
    /// One 32-byte secret block per digest bit.
    pub value: Vec<Vec<u8>>,
}

/// The two proof slots: first signer, then counter-signer.
pub type ProofOfAgreement = (Option<Signature>, Option<Signature>);

/// The two public-key slots, mirroring [`ProofOfAgreement`] slot for slot.
pub type PublicKeys = (Option<PublicKey>, Option<PublicKey>);

/// A bilateral agreement and its accumulated signing state.
pub struct Agreement {
    pub by_user: User,
    pub with_user: User,
    pub terms: Vec<String>,
    pub date: String,
    pub id: u64,
    pub proof_of_agreement: Option<ProofOfAgreement>,
    pub public_keys: Option<PublicKeys>,
}

/// The mathematical content of a [`PublicKey`].
#[verifier::ext_equal]
pub ghost struct PublicKeyView {
    pub zero_blocks: Seq<Seq<u8>>,
    pub one_blocks: Seq<Seq<u8>>,
}

/// The mathematical content of a [`Signature`].
#[verifier::ext_equal]
pub ghost struct SignatureView {
    pub agrees_to: Box<AgreementView>,
    pub value: Seq<Seq<u8>>,
}

/// The mathematical content of an [`Agreement`].
#[verifier::ext_equal]
pub ghost struct AgreementView {
    pub by_user: Seq<char>,
    pub with_user: Seq<char>,
    pub terms: Seq<Seq<char>>,
    pub date: Seq<char>,
    pub id: u64,
    pub proof: Option<(Option<SignatureView>, Option<SignatureView>)>,
    pub keys: Option<(Option<PublicKeyView>, Option<PublicKeyView>)>,
}

impl View for PublicKey {
    type V = PublicKeyView;

    open spec fn view(&self) -> PublicKeyView {
        PublicKeyView {
            zero_blocks: views_of_blocks(self.zero_blocks@),
            one_blocks: views_of_blocks(self.one_blocks@),
        }
    }
}

/// The view of an agreement, including the snapshots embedded in its
/// signatures.
pub open spec fn agreement_view(a: Agreement) -> AgreementView
    decreases a,
{
    AgreementView {
        by_user: a.by_user.identity@,
        with_user: a.with_user.identity@,
        terms: views_of_strings(a.terms@),
        date: a.date@,
        id: a.id,
        proof: match a.proof_of_agreement {
            None => None,
            Some(p) => Some(
                (
                    match p.0 {
                        None => None,
                        Some(s) => Some(signature_view(s)),
                    },
                    match p.1 {
                        None => None,
                        Some(s) => Some(signature_view(s)),
                    },
                ),
            ),
        },
        keys: match a.public_keys {
            None => None,
            Some(k) => Some(
                (
                    match k.0 {
                        None => None,
                        Some(pk) => Some(pk@),
                    },
                    match k.1 {
                        None => None,
                        Some(pk) => Some(pk@),
                    },
                ),
            ),
        },
    }
}

/// The view of a signature, including the embedded agreement snapshot.
pub open spec fn signature_view(s: Signature) -> SignatureView
    decreases s,
{
    SignatureView {
        agrees_to: Box::new(agreement_view(*s.agrees_to)),
        value: views_of_blocks(s.value@),
    }
}

impl View for Agreement {
    type V = AgreementView;

    open spec fn view(&self) -> AgreementView {
        agreement_view(*self)
    }
}

impl View for Signature {
    type V = SignatureView;

    open spec fn view(&self) -> SignatureView {
        signature_view(*self)
    }
}

/// The first proof slot, if the proof pair exists.
pub open spec fn first_proof_slot(v: AgreementView) -> Option<SignatureView> {
    match v.proof {
        None => None,
        Some(p) => p.0,
    }
}

/// The second proof slot, if the proof pair exists.
pub open spec fn second_proof_slot(v: AgreementView) -> Option<SignatureView> {
    match v.proof {
        None => None,
        Some(p) => p.1,
    }
}

/// The first key slot, if the key pair exists.
pub open spec fn first_key_slot(v: AgreementView) -> Option<PublicKeyView> {
    match v.keys {
        None => None,
        Some(k) => k.0,
    }
}

/// Draft: no proof and no keys.
pub open spec fn is_draft(v: AgreementView) -> bool {
    v.proof is None && v.keys is None
}

/// Partially signed: both pairs exist, slot 1 filled, slot 2 empty.
pub open spec fn is_partially_signed(v: AgreementView) -> bool {
    match (v.proof, v.keys) {
        (Some(p), Some(k)) => p.0 is Some && p.1 is None && k.0 is Some && k.1 is None,
        _ => false,
    }
}

/// Fully signed: both pairs exist and all four slots are filled.
pub open spec fn is_fully_signed(v: AgreementView) -> bool {
    match (v.proof, v.keys) {
        (Some(p), Some(k)) => p.0 is Some && p.1 is Some && k.0 is Some && k.1 is Some,
        _ => false,
    }
}

/// The key/proof consistency invariant: the proof pair and the key pair
/// exist together, and slot `i` of the proof is filled exactly when slot
/// `i` of the keys is filled.
pub open spec fn slots_consistent(v: AgreementView) -> bool {
    match (v.proof, v.keys) {
        (None, None) => true,
        (Some(p), Some(k)) => (p.0 is Some <==> k.0 is Some) && (p.1 is Some <==> k.1 is Some),
        _ => false,
    }
}

/// A fresh copy of a user with the same identity.
pub fn clone_user(u: &User) -> (r: User)
    ensures
        r@ == u@,
{
    User { identity: u.identity.clone() }
}

/// A fresh copy of a vector of strings with the same views.
pub fn clone_strings(v: &Vec<String>) -> (r: Vec<String>)
    ensures
        r@.len() == v@.len(),
        views_of_strings(r@) == views_of_strings(v@),
{
    let mut r: Vec<String> = Vec::new();
    let mut i: usize = 0;
    while i < v.len()
        invariant
            i <= v@.len(),
            r@.len() == i,
            forall|j: int| 0 <= j < i ==> #[trigger] r@[j]@ == v@[j]@,
        decreases v@.len() - i,
    {
        r.push(v[i].clone());
        i = i + 1;
    }
    proof {
        assert(views_of_strings(r@) =~= views_of_strings(v@));
    }
    r
}

/// A fresh copy of a vector of byte blocks with the same views.
pub fn clone_block_column(v: &Vec<Vec<u8>>) -> (r: Vec<Vec<u8>>)
    ensures
        r@.len() == v@.len(),
        views_of_blocks(r@) == views_of_blocks(v@),
{
    let mut r: Vec<Vec<u8>> = Vec::new();
    let mut i: usize = 0;
    while i < v.len()
        invariant
            i <= v@.len(),
            r@.len() == i,
            forall|j: int| 0 <= j < i ==> #[trigger] r@[j]@ == v@[j]@,
        decreases v@.len() - i,
    {
        r.push(crate::encoding::clone_bytes(&v[i]));
        i = i + 1;
    }
    proof {
        assert(views_of_blocks(r@) =~= views_of_blocks(v@));
    }
    r
}

/// A fresh copy of a public key with the same view.
pub fn clone_public_key(pk: &PublicKey) -> (r: PublicKey)
    ensures
        r@ == pk@,
        r.zero_blocks@.len() == pk.zero_blocks@.len(),
        r.one_blocks@.len() == pk.one_blocks@.len(),
{
    PublicKey {
        zero_blocks: clone_block_column(&pk.zero_blocks),
        one_blocks: clone_block_column(&pk.one_blocks),
    }
}

/// A fresh deep copy of an agreement — the snapshot a signature embeds —
/// with the same view.
pub fn clone_agreement(a: &Agreement) -> (r: Agreement)
    ensures
        r@ == a@,
    decreases *a,
{
    Agreement {
        by_user: clone_user(&a.by_user),
        with_user: clone_user(&a.with_user),
        terms: clone_strings(&a.terms),
        date: a.date.clone(),
        id: a.id,
        proof_of_agreement: match &a.proof_of_agreement {
            None => None,
            Some(p) => Some(
                (
                    match &p.0 {
                        None => None,
                        Some(s) => Some(clone_signature(s)),
                    },
                    match &p.1 {
                        None => None,
                        Some(s) => Some(clone_signature(s)),
                    },
                ),
            ),
        },
        public_keys: match &a.public_keys {
            None => None,
            Some(k) => Some(
                (
                    match &k.0 {
                        None => None,
                        Some(pk) => Some(clone_public_key(pk)),
                    },
                    match &k.1 {
                        None => None,
                        Some(pk) => Some(clone_public_key(pk)),
                    },
                ),
            ),
        },
    }
}

/// A fresh deep copy of a signature, embedded snapshot included, with the
/// same view.
pub fn clone_signature(s: &Signature) -> (r: Signature)
    ensures
        r@ == s@,
    decreases *s,
{
    Signature {
        agrees_to: Box::new(clone_agreement(&s.agrees_to)),
        value: clone_block_column(&s.value),
    }
}

/// Why a protocol operation failed.
#[derive(Clone, Copy, Debug, PartialEq, Eq, Structural)]
pub enum AgreementError {
    /// The operation was applied to an agreement in the wrong state.
    PreconditionViolation,
    /// The signing scheme could not derive a key from the given inputs
    /// (an empty signer identity).
    KeyDerivationFailure,
    /// The agreement content exceeds the serialized size bound.
    SerializationFailure,
}

} // verus!
