//! The two-phase signing protocol.
//!
//! A creator builds a draft agreement; the initiating party's auto-sign
//! step fills slot 1 of the proof and key pairs; the counterparty's agree
//! step fills slot 2. Each step derives a fresh one-time private key from
//! a seed that binds the signer's identity to the full agreement snapshot
//! in effect at signing time, signs the digest of the terms, and embeds
//! that snapshot in the stored signature. Operations applied in the wrong
//! state return a typed error and never touch the input.

use vstd::prelude::*;
use vstd::utf8::encode_utf8;
use crate::agreement::{
    agreement_view, clone_agreement, first_key_slot, first_proof_slot, is_draft, is_fully_signed,
    is_partially_signed, second_proof_slot, signature_view, slots_consistent,
    Agreement, AgreementError, AgreementView, PublicKeyView, Signature, SignatureView, User,
};
use crate::encoding::{
    blocks_blob, le8, length_prefixed, push_le8, push_length_prefixed, terms_blob,
    views_of_blocks, views_of_strings,
};
use crate::lamport::{
    derive_private_key_from_seed, derive_public_key, digest_of, hash_terms, key_blocks,
    public_blocks, sign, signature_blocks, PrivateKey, KEY_BLOCKS,
};

verus! {

/// The largest encoded agreement content the protocol accepts, in bytes:
/// the serialized-size bound of the storage medium.
pub const MAX_CONTENT_BYTES: usize = 1024;

/// The byte encoding of an agreement's content fields: id, parties, date
/// and terms, each string length-prefixed.
pub open spec fn content_of(v: AgreementView) -> Seq<u8> {
    le8(v.id) + length_prefixed(encode_utf8(v.by_user)) + length_prefixed(
        encode_utf8(v.with_user),
    ) + length_prefixed(encode_utf8(v.date)) + le8(v.terms.len() as u64) + terms_blob(v.terms)
}

/// The part of a derivation seed that covers an already-present first
/// signature, so that the first and the second signing act of one
/// agreement never share a seed.
pub open spec fn slot1_seed_part(v: AgreementView) -> Seq<u8> {
    match first_proof_slot(v) {
        Some(s) => seq![1u8] + blocks_blob(s.value),
        None => seq![0u8],
    }
}

/// The key-derivation seed: a pure function of the signer's identity and
/// the full agreement snapshot at signing time.
pub open spec fn seed_of(identity: Seq<char>, v: AgreementView) -> Seq<u8> {
    length_prefixed(encode_utf8(identity)) + content_of(v) + slot1_seed_part(v)
}

/// The view of a freshly created draft agreement.
pub open spec fn draft_view(
    by_user: Seq<char>,
    with_user: Seq<char>,
    terms: Seq<Seq<char>>,
    date: Seq<char>,
    id: u64,
) -> AgreementView {
    AgreementView { by_user, with_user, terms, date, id, proof: None, keys: None }
}

/// The signature produced by signing snapshot `v` under `identity`.
pub open spec fn fresh_signature_view(identity: Seq<char>, v: AgreementView) -> SignatureView {
    SignatureView {
        agrees_to: Box::new(v),
        value: signature_blocks(
            digest_of(v.terms),
            key_blocks(seed_of(identity, v), 0),
            key_blocks(seed_of(identity, v), 1),
        ),
    }
}

/// The public key matching the private key that signs snapshot `v` under
/// `identity`.
pub open spec fn fresh_public_key_view(identity: Seq<char>, v: AgreementView) -> PublicKeyView {
    PublicKeyView {
        zero_blocks: public_blocks(key_blocks(seed_of(identity, v), 0)),
        one_blocks: public_blocks(key_blocks(seed_of(identity, v), 1)),
    }
}

/// The result of the auto-sign step on draft `v`: slot 1 of both pairs
/// filled by the agreement's initiator, slot 2 empty.
pub open spec fn auto_signed_view(v: AgreementView) -> AgreementView {
    AgreementView {
        by_user: v.by_user,
        with_user: v.with_user,
        terms: v.terms,
        date: v.date,
        id: v.id,
        proof: Some((Some(fresh_signature_view(v.by_user, v)), None)),
        keys: Some((Some(fresh_public_key_view(v.by_user, v)), None)),
    }
}

/// The result of the agree step on partially signed `v`: slot 1 of both
/// pairs preserved unchanged, slot 2 filled by the counter-signer.
pub open spec fn agreed_view(identity: Seq<char>, v: AgreementView) -> AgreementView {
    AgreementView {
        by_user: v.by_user,
        with_user: v.with_user,
        terms: v.terms,
        date: v.date,
        id: v.id,
        proof: Some((first_proof_slot(v), Some(fresh_signature_view(identity, v)))),
        keys: Some((first_key_slot(v), Some(fresh_public_key_view(identity, v)))),
    }
}

/// Encodes the content fields of an agreement.
pub fn encode_content(a: &Agreement) -> (r: Vec<u8>)
    ensures
        r@ == content_of(a@),
{
    let mut r: Vec<u8> = Vec::new();
    push_le8(&mut r, a.id);
    push_length_prefixed(&mut r, a.by_user.identity.as_str().as_bytes());
    push_length_prefixed(&mut r, a.with_user.identity.as_str().as_bytes());
    push_length_prefixed(&mut r, a.date.as_str().as_bytes());
    push_le8(&mut r, a.terms.len() as u64);
    let ghost prefix = r@;
    let ghost tv = views_of_strings(a.terms@);
    let mut i: usize = 0;
    while i < a.terms.len()
        invariant
            i <= a.terms@.len(),
            tv == views_of_strings(a.terms@),
            r@ == prefix + terms_blob(tv.take(i as int)),
        decreases a.terms@.len() - i,
    {
        push_length_prefixed(&mut r, a.terms[i].as_str().as_bytes());
        proof {
            assert(tv.take(i + 1 as int).drop_last() =~= tv.take(i as int));
            assert(tv.take(i + 1 as int).last() == a.terms@[i as int]@);
        }
        i = i + 1;
    }
    proof {
        assert(tv.take(a.terms@.len() as int) =~= tv);
        assert(r@ =~= content_of(a@));
    }
    r
}

/// Appends every block of a column, each length-prefixed.
fn push_blocks_blob(dst: &mut Vec<u8>, blocks: &Vec<Vec<u8>>)
    ensures
        final(dst)@ == old(dst)@ + blocks_blob(views_of_blocks(blocks@)),
{
    let ghost bv = views_of_blocks(blocks@);
    let mut i: usize = 0;
    while i < blocks.len()
        invariant
            i <= blocks@.len(),
            bv == views_of_blocks(blocks@),
            dst@ == old(dst)@ + blocks_blob(bv.take(i as int)),
        decreases blocks@.len() - i,
    {
        push_length_prefixed(dst, blocks[i].as_slice());
        proof {
            assert(bv.take(i + 1 as int).drop_last() =~= bv.take(i as int));
            assert(bv.take(i + 1 as int).last() == blocks@[i as int]@);
        }
        i = i + 1;
    }
    proof {
        assert(bv.take(blocks@.len() as int) =~= bv);
    }
}

/// Builds the key-derivation seed for signing `a` under `identity`.
fn build_seed(identity: &String, a: &Agreement) -> (r: Vec<u8>)
    ensures
        r@ == seed_of(identity@, a@),
{
    let mut r: Vec<u8> = Vec::new();
    push_length_prefixed(&mut r, identity.as_str().as_bytes());
    let content = encode_content(a);
    crate::encoding::push_bytes(&mut r, content.as_slice());
    match &a.proof_of_agreement {
        Some(p) => match &p.0 {
            Some(s) => {
                r.push(1);
                push_blocks_blob(&mut r, &s.value);
                proof {
                    assert(first_proof_slot(a@) == Some(signature_view(*s)));
                    assert(slot1_seed_part(a@) =~= seq![1u8] + blocks_blob(
                        views_of_blocks(s.value@),
                    ));
                    assert(r@ =~= seed_of(identity@, a@));
                }
            },
            None => {
                r.push(0);
                proof {
                    assert(slot1_seed_part(a@) =~= seq![0u8]);
                    assert(r@ =~= seed_of(identity@, a@));
                }
            },
        },
        None => {
            r.push(0);
            proof {
                assert(slot1_seed_part(a@) =~= seq![0u8]);
                assert(r@ =~= seed_of(identity@, a@));
            }
        },
    }
    r
}

/// Derives the one-time private key for signing `agreement` under
/// `identity`: a deterministic function of the two, so deriving twice
/// from the same pair yields the same key. Fails exactly on an empty
/// identity, the one malformed input the scheme rejects.
pub fn derive_private_key(identity: &String, agreement: &Agreement) -> (r: Result<
    PrivateKey,
    AgreementError,
>)
    ensures
        ({
            match r {
                Ok(sk) => identity@.len() > 0 && sk.zero_blocks@.len() == KEY_BLOCKS
                    && sk.one_blocks@.len() == KEY_BLOCKS && views_of_blocks(sk.zero_blocks@)
                    == key_blocks(seed_of(identity@, agreement@), 0) && views_of_blocks(
                    sk.one_blocks@,
                ) == key_blocks(seed_of(identity@, agreement@), 1),
                Err(e) => e == AgreementError::KeyDerivationFailure && identity@.len() == 0,
            }
        }),
{
    if identity.as_str().is_empty() {
        return Err(AgreementError::KeyDerivationFailure);
    }
    let seed = build_seed(identity, agreement);
    Ok(derive_private_key_from_seed(&seed))
}

/// Creating agreements on behalf of a user.
pub trait CreateAgreement {
    /// Builds a draft agreement from its content fields: no proof, no
    /// keys. Rejects content whose encoding exceeds the serialized size
    /// bound, and accepts everything else.
    fn new_agreement(
        self,
        terms: Vec<String>,
        date: String,
        with_user: User,
        by_user: User,
        id: u64,
    ) -> (r: Result<Agreement, AgreementError>)
        ensures
            ({
                let dv = draft_view(by_user@, with_user@, views_of_strings(terms@), date@, id);
                match r {
                    Ok(a) => content_of(dv).len() <= MAX_CONTENT_BYTES && a@ == dv,
                    Err(e) => e == AgreementError::SerializationFailure && content_of(dv).len()
                        > MAX_CONTENT_BYTES,
                }
            }),
    ;
}

/// Advancing an agreement through the two signing states.
pub trait Agree {
    /// The identity under which this party signs.
    spec fn signer_id(&self) -> Seq<char>;

    /// The counter-sign step: on an agreement that is exactly partially
    /// signed, preserves slot 1 of both pairs unchanged and fills slot 2
    /// with this party's signature and public key. In any other state it
    /// returns `PreconditionViolation`; with an empty signer identity it
    /// returns `KeyDerivationFailure`.
    fn agree(self, agreement: Agreement) -> (r: Result<Agreement, AgreementError>)
        ensures
            ({
                let v = agreement@;
                match r {
                    Ok(out) => is_partially_signed(v) && self.signer_id().len() > 0 && out@
                        == agreed_view(self.signer_id(), v),
                    Err(e) => match e {
                        AgreementError::PreconditionViolation => !is_partially_signed(v),
                        AgreementError::KeyDerivationFailure => is_partially_signed(v)
                            && self.signer_id().len() == 0,
                        AgreementError::SerializationFailure => false,
                    },
                }
            }),
    ;

    /// The first-signer step, taken on behalf of the agreement's
    /// initiator (`by_user`): on a draft, fills slot 1 of both pairs with
    /// the initiator's signature and public key and leaves slot 2 empty.
    /// On a non-draft agreement it returns `PreconditionViolation`; with
    /// an empty initiator identity it returns `KeyDerivationFailure`.
    fn automatic_agreement(&self, agreement: Agreement) -> (r: Result<Agreement, AgreementError>)
        ensures
            ({
                let v = agreement@;
                match r {
                    Ok(out) => is_draft(v) && v.by_user.len() > 0 && out@ == auto_signed_view(v),
                    Err(e) => match e {
                        AgreementError::PreconditionViolation => !is_draft(v),
                        AgreementError::KeyDerivationFailure => is_draft(v) && v.by_user.len()
                            == 0,
                        AgreementError::SerializationFailure => false,
                    },
                }
            }),
    ;
}

impl CreateAgreement for User {
    fn new_agreement(
        self,
        terms: Vec<String>,
        date: String,
        with_user: User,
        by_user: User,
        id: u64,
    ) -> (r: Result<Agreement, AgreementError>) {
        let draft = Agreement {
            by_user,
            with_user,
            terms,
            date,
            id,
            proof_of_agreement: None,
            public_keys: None,
        };
        let content = encode_content(&draft);
        if content.len() <= MAX_CONTENT_BYTES {
            Ok(draft)
        } else {
            Err(AgreementError::SerializationFailure)
        }
    }
}

impl Agree for User {
    open spec fn signer_id(&self) -> Seq<char> {
        self.identity@
    }

    fn agree(self, agreement: Agreement) -> (r: Result<Agreement, AgreementError>) {
        let ghost v = agreement@;
        let state_ok = match (&agreement.proof_of_agreement, &agreement.public_keys) {
            (Some(p), Some(k)) => p.0.is_some() && p.1.is_none() && k.0.is_some()
                && k.1.is_none(),
            _ => false,
        };
        if !state_ok {
            return Err(AgreementError::PreconditionViolation);
        }
        if self.identity.as_str().is_empty() {
            return Err(AgreementError::KeyDerivationFailure);
        }
        let seed = build_seed(&self.identity, &agreement);
        let sk = derive_private_key_from_seed(&seed);
        let pk = derive_public_key(&sk);
        let digest = hash_terms(&agreement.terms);
        let value = sign(&digest, &sk);
        let snapshot = clone_agreement(&agreement);
        let signature = Signature { agrees_to: Box::new(snapshot), value };
        let Agreement { by_user, with_user, terms, date, id, proof_of_agreement, public_keys } =
            agreement;
        let first_sig = match proof_of_agreement {
            Some(p) => p.0,
            None => None,
        };
        let first_key = match public_keys {
            Some(k) => k.0,
            None => None,
        };
        let out = Agreement {
            by_user,
            with_user,
            terms,
            date,
            id,
            proof_of_agreement: Some((first_sig, Some(signature))),
            public_keys: Some((first_key, Some(pk))),
        };
        proof {
            assert(out@ =~~= agreed_view(self.signer_id(), v));
        }
        Ok(out)
    }

    fn automatic_agreement(&self, agreement: Agreement) -> (r: Result<
        Agreement,
        AgreementError,
    >) {
        let ghost v = agreement@;
        let state_ok = agreement.proof_of_agreement.is_none() && agreement.public_keys.is_none();
        if !state_ok {
            return Err(AgreementError::PreconditionViolation);
        }
        if agreement.by_user.identity.as_str().is_empty() {
            return Err(AgreementError::KeyDerivationFailure);
        }
        let seed = build_seed(&agreement.by_user.identity, &agreement);
        let sk = derive_private_key_from_seed(&seed);
        let pk = derive_public_key(&sk);
        let digest = hash_terms(&agreement.terms);
        let value = sign(&digest, &sk);
        let snapshot = clone_agreement(&agreement);
        let signature = Signature { agrees_to: Box::new(snapshot), value };
        let Agreement { by_user, with_user, terms, date, id, proof_of_agreement: _, public_keys: _ } =
            agreement;
        let out = Agreement {
            by_user,
            with_user,
            terms,
            date,
            id,
            proof_of_agreement: Some((Some(signature), None)),
            public_keys: Some((Some(pk), None)),
        };
        proof {
            assert(out@ =~~= auto_signed_view(v));
        }
        Ok(out)
    }
}

/// Law: hashing a terms sequence is deterministic — equal terms give
/// equal digests.
pub proof fn lemma_terms_digest_deterministic(t1: Seq<Seq<char>>, t2: Seq<Seq<char>>)
    requires
        t1 == t2,
    ensures
        digest_of(t1) == digest_of(t2),
{
}

/// Law: state-transition totality. A freshly created agreement is a
/// draft; auto-signing a draft always yields a partially signed
/// agreement with slot 1 filled and slot 2 empty; counter-signing a
/// partially signed agreement always yields a fully signed one.
pub proof fn lemma_state_transition_totality(
    identity: Seq<char>,
    v: AgreementView,
    by_user: Seq<char>,
    with_user: Seq<char>,
    terms: Seq<Seq<char>>,
    date: Seq<char>,
    id: u64,
)
    ensures
        is_draft(draft_view(by_user, with_user, terms, date, id)),
        is_draft(v) ==> is_partially_signed(auto_signed_view(v)),
        is_partially_signed(v) ==> is_fully_signed(agreed_view(identity, v)),
{
}

/// Law: write-once slots. The counter-sign step leaves the first proof
/// slot and the first key slot exactly as it found them; and since its
/// result is fully signed — a state in which both operations refuse to
/// act — no sequence of valid operations ever changes a filled slot.
pub proof fn lemma_write_once_slots(identity: Seq<char>, v: AgreementView)
    requires
        is_partially_signed(v),
    ensures
        first_proof_slot(agreed_view(identity, v)) == first_proof_slot(v),
        first_key_slot(agreed_view(identity, v)) == first_key_slot(v),
        is_fully_signed(agreed_view(identity, v)),
{
}

/// Law: key/proof consistency. A draft is consistent (both pairs
/// absent); each signing step keeps the proof and key pairs filled
/// slot-for-slot together, so every reachable state satisfies the
/// invariant.
pub proof fn lemma_key_proof_consistency(
    identity: Seq<char>,
    v: AgreementView,
    by_user: Seq<char>,
    with_user: Seq<char>,
    terms: Seq<Seq<char>>,
    date: Seq<char>,
    id: u64,
)
    ensures
        slots_consistent(draft_view(by_user, with_user, terms, date, id)),
        is_draft(v) ==> slots_consistent(auto_signed_view(v)),
        is_partially_signed(v) ==> slots_consistent(agreed_view(identity, v)),
{
}

/// Law: a stored signature embeds the exact agreement state in effect
/// when it was produced — the auto-sign step embeds the draft it signed,
/// and the counter-sign step embeds the partially signed agreement it
/// was given — so later steps cannot drift from what was attested.
pub proof fn lemma_signature_embeds_snapshot(identity: Seq<char>, v: AgreementView)
    ensures
        (match first_proof_slot(auto_signed_view(v)) {
            Some(s) => *s.agrees_to == v,
            None => false,
        }),
        (match second_proof_slot(agreed_view(identity, v)) {
            Some(s) => *s.agrees_to == v,
            None => false,
        }),
{
}

/// Law: the signing steps never touch the content fields — parties,
/// terms, date and id survive both steps unchanged.
pub proof fn lemma_content_immutable(identity: Seq<char>, v: AgreementView)
    ensures
        auto_signed_view(v).by_user == v.by_user,
        auto_signed_view(v).with_user == v.with_user,
        auto_signed_view(v).terms == v.terms,
        auto_signed_view(v).date == v.date,
        auto_signed_view(v).id == v.id,
        agreed_view(identity, v).by_user == v.by_user,
        agreed_view(identity, v).with_user == v.with_user,
        agreed_view(identity, v).terms == v.terms,
        agreed_view(identity, v).date == v.date,
        agreed_view(identity, v).id == v.id,
{
}

} // verus!
