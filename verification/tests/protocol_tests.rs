use pok_backend::agreement::{clone_agreement, Agreement, AgreementError, User};
use pok_backend::lamport::{derive_public_key, hash_terms, sign, verify};
use pok_backend::protocol::{derive_private_key, Agree, CreateAgreement};

fn user(name: &str) -> User {
    User { identity: name.to_string() }
}

fn sample_draft() -> Agreement {
    user("creator")
        .new_agreement(
            vec!["pay $100".to_string(), "by June 1".to_string()],
            "2024-01-01".to_string(),
            user("Bob"),
            user("Alice"),
            42,
        )
        .unwrap()
}

#[test]
fn create_yields_draft_with_given_fields() {
    let draft = sample_draft();
    assert_eq!(draft.by_user.identity, "Alice");
    assert_eq!(draft.with_user.identity, "Bob");
    assert_eq!(draft.terms, vec!["pay $100".to_string(), "by June 1".to_string()]);
    assert_eq!(draft.date, "2024-01-01");
    assert_eq!(draft.id, 42);
    assert!(draft.proof_of_agreement.is_none());
    assert!(draft.public_keys.is_none());
}

#[test]
fn full_signing_flow() {
    let draft = sample_draft();

    let partial = user("Alice").automatic_agreement(draft).unwrap();
    let proof = partial.proof_of_agreement.as_ref().unwrap();
    let keys = partial.public_keys.as_ref().unwrap();
    assert!(proof.0.is_some() && proof.1.is_none());
    assert!(keys.0.is_some() && keys.1.is_none());

    // The slot-1 signature embeds the pre-signing draft snapshot.
    let slot1 = proof.0.as_ref().unwrap();
    assert!(slot1.agrees_to.proof_of_agreement.is_none());
    assert!(slot1.agrees_to.public_keys.is_none());
    assert_eq!(slot1.agrees_to.terms, partial.terms);

    let slot1_value = slot1.value.clone();
    let slot1_key_zeros = keys.0.as_ref().unwrap().zero_blocks.clone();
    let partial_copy = clone_agreement(&partial);

    let full = user("Bob").agree(partial).unwrap();
    let proof = full.proof_of_agreement.as_ref().unwrap();
    let keys = full.public_keys.as_ref().unwrap();
    assert!(proof.0.is_some() && proof.1.is_some());
    assert!(keys.0.is_some() && keys.1.is_some());

    // Write-once: slot 1 is unchanged by the counter-sign step.
    assert_eq!(proof.0.as_ref().unwrap().value, slot1_value);
    assert_eq!(keys.0.as_ref().unwrap().zero_blocks, slot1_key_zeros);

    // The slot-2 signature embeds the partially signed snapshot.
    let slot2 = proof.1.as_ref().unwrap();
    assert_eq!(slot2.agrees_to.terms, partial_copy.terms);
    assert_eq!(slot2.agrees_to.id, partial_copy.id);
    let snap_proof = slot2.agrees_to.proof_of_agreement.as_ref().unwrap();
    assert_eq!(snap_proof.0.as_ref().unwrap().value, slot1_value);
    assert!(snap_proof.1.is_none());
}

#[test]
fn agree_on_draft_is_precondition_violation() {
    let draft = sample_draft();
    let copy = clone_agreement(&draft);
    let r = user("Bob").agree(copy);
    assert!(matches!(r, Err(AgreementError::PreconditionViolation)));
    // The caller's draft is untouched.
    assert!(draft.proof_of_agreement.is_none());
    assert!(draft.public_keys.is_none());
}

#[test]
fn auto_sign_on_partially_signed_rejected() {
    let partial = user("Alice").automatic_agreement(sample_draft()).unwrap();
    let r = user("Alice").automatic_agreement(partial);
    assert!(matches!(r, Err(AgreementError::PreconditionViolation)));
}

#[test]
fn auto_sign_on_fully_signed_rejected() {
    let partial = user("Alice").automatic_agreement(sample_draft()).unwrap();
    let full = user("Bob").agree(partial).unwrap();
    let r = user("Alice").automatic_agreement(full);
    assert!(matches!(r, Err(AgreementError::PreconditionViolation)));
}

#[test]
fn agree_on_fully_signed_rejected() {
    let partial = user("Alice").automatic_agreement(sample_draft()).unwrap();
    let full = user("Bob").agree(partial).unwrap();
    let r = user("Bob").agree(full);
    assert!(matches!(r, Err(AgreementError::PreconditionViolation)));
}

#[test]
fn key_derivation_is_deterministic() {
    let draft = sample_draft();
    let alice = "Alice".to_string();
    let k1 = derive_private_key(&alice, &draft).unwrap();
    let k2 = derive_private_key(&alice, &draft).unwrap();
    assert_eq!(k1.zero_blocks, k2.zero_blocks);
    assert_eq!(k1.one_blocks, k2.one_blocks);

    let digest = hash_terms(&draft.terms);
    let s1 = sign(&digest, &k1);
    let s2 = sign(&digest, &k2);
    assert_eq!(s1, s2);
}

#[test]
fn different_inputs_give_different_keys() {
    let draft = sample_draft();
    let alice = "Alice".to_string();
    let bob = "Bob".to_string();
    let alice_key = derive_private_key(&alice, &draft).unwrap();
    let bob_key = derive_private_key(&bob, &draft).unwrap();
    assert_ne!(alice_key.zero_blocks, bob_key.zero_blocks);

    // The same signer derives a different key once slot 1 is filled:
    // the seed covers the agreement snapshot, not just its content.
    let partial = user("Alice").automatic_agreement(clone_agreement(&draft)).unwrap();
    let draft_key = derive_private_key(&alice, &draft).unwrap();
    let partial_key = derive_private_key(&alice, &partial).unwrap();
    assert_ne!(draft_key.zero_blocks, partial_key.zero_blocks);
}

#[test]
fn empty_identity_is_key_derivation_failure() {
    let draft = sample_draft();
    let empty = String::new();
    assert!(matches!(
        derive_private_key(&empty, &draft),
        Err(AgreementError::KeyDerivationFailure)
    ));

    let r = user("Bob").agree(user("Alice").automatic_agreement(clone_agreement(&draft)).unwrap());
    assert!(r.is_ok());
    let r = user("").agree(user("Alice").automatic_agreement(clone_agreement(&draft)).unwrap());
    assert!(matches!(r, Err(AgreementError::KeyDerivationFailure)));

    let no_initiator = user("creator")
        .new_agreement(
            vec!["t".to_string()],
            "2024-01-01".to_string(),
            user("Bob"),
            user(""),
            7,
        )
        .unwrap();
    let r = user("Alice").automatic_agreement(no_initiator);
    assert!(matches!(r, Err(AgreementError::KeyDerivationFailure)));
}

#[test]
fn terms_hashing_is_deterministic() {
    let terms = vec!["pay $100".to_string(), "by June 1".to_string()];
    let d1 = hash_terms(&terms);
    let d2 = hash_terms(&terms);
    assert_eq!(d1, d2);
    assert_eq!(d1.len(), 32);

    let other = vec!["pay $200".to_string(), "by June 1".to_string()];
    assert_ne!(hash_terms(&other), d1);

    // The digest of an empty terms sequence is still a 32-byte hash.
    let empty: Vec<String> = Vec::new();
    let d3 = hash_terms(&empty);
    assert_eq!(d3.len(), 32);
    assert_ne!(d3, Vec::<u8>::new());
}

#[test]
fn oversized_content_is_serialization_failure() {
    let big_term = "x".repeat(1100);
    let r = user("creator").new_agreement(
        vec![big_term],
        "2024-01-01".to_string(),
        user("Bob"),
        user("Alice"),
        1,
    );
    assert!(matches!(r, Err(AgreementError::SerializationFailure)));

    // Many small terms can add up past the bound too.
    let many: Vec<String> = (0..200).map(|i| format!("term {i}")).collect();
    let r = user("creator").new_agreement(
        many,
        "2024-01-01".to_string(),
        user("Bob"),
        user("Alice"),
        2,
    );
    assert!(matches!(r, Err(AgreementError::SerializationFailure)));
}

#[test]
fn sign_verify_roundtrip() {
    let draft = sample_draft();
    let alice = "Alice".to_string();
    let sk = derive_private_key(&alice, &draft).unwrap();
    let pk = derive_public_key(&sk);
    let digest = hash_terms(&draft.terms);
    let signature = sign(&digest, &sk);
    assert!(verify(&digest, &signature, &pk));

    // A different digest does not verify against the same signature.
    let mut tampered = digest.clone();
    tampered[0] ^= 0xff;
    assert!(!verify(&tampered, &signature, &pk));

    // A signature by another key does not verify against Alice's key.
    let bob = "Bob".to_string();
    let bob_sk = derive_private_key(&bob, &draft).unwrap();
    let bob_sig = sign(&digest, &bob_sk);
    assert!(!verify(&digest, &bob_sig, &pk));
}

#[test]
fn stored_signatures_verify_against_stored_keys() {
    let partial = user("Alice").automatic_agreement(sample_draft()).unwrap();
    let digest = hash_terms(&partial.terms);
    let proof = partial.proof_of_agreement.as_ref().unwrap();
    let keys = partial.public_keys.as_ref().unwrap();
    let slot1_sig = &proof.0.as_ref().unwrap().value;
    let slot1_key = keys.0.as_ref().unwrap();
    assert!(verify(&digest, slot1_sig, slot1_key));

    let full = user("Bob").agree(clone_agreement(&partial)).unwrap();
    let proof = full.proof_of_agreement.as_ref().unwrap();
    let keys = full.public_keys.as_ref().unwrap();
    let slot2_sig = &proof.1.as_ref().unwrap().value;
    let slot2_key = keys.1.as_ref().unwrap();
    assert!(verify(&digest, slot2_sig, slot2_key));
    // Slot 2's signature came from a different one-time key than slot 1's.
    assert_ne!(slot2_sig, &proof.0.as_ref().unwrap().value);
}
