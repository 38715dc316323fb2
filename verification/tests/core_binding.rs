use shroud::{
    BasisDescriptor, HashIdentifier, SecurityLevel, TranscriptBindable, TranscriptBindingError,
    TranscriptBindingManifest, TranscriptStage, DOMAIN_BASIS, DOMAIN_DEGREE_CONTRACT,
    DOMAIN_HASH_ID, DOMAIN_ORACLE_COMMITMENT, DOMAIN_PROFILE, DOMAIN_PUBLIC_OPENINGS,
    DOMAIN_RANDOMIZER_COMMITMENT, DOMAIN_SECURITY_LEVEL,
};

#[test]
fn statistical_security_level_encodes_as_zero() {
    let binding = SecurityLevel::Statistical.to_transcript_binding();
    assert_eq!(binding.domain_label(), DOMAIN_SECURITY_LEVEL);
    assert_eq!(binding.canonical_bytes(), &[0u8]);
}

#[test]
fn perfect_security_level_encodes_as_one() {
    let binding = SecurityLevel::Perfect.to_transcript_binding();
    assert_eq!(binding.domain_label(), DOMAIN_SECURITY_LEVEL);
    assert_eq!(binding.canonical_bytes(), &[1u8]);
}

#[test]
fn security_level_bindings_are_distinct() {
    let s = SecurityLevel::Statistical.to_transcript_binding();
    let p = SecurityLevel::Perfect.to_transcript_binding();
    assert_ne!(s, p);
}

#[test]
fn basis_descriptor_encodes_extension_degree_and_discriminants() {
    let basis = BasisDescriptor::plonky3_binomial(4);
    let binding = basis.to_transcript_binding();
    assert_eq!(binding.domain_label(), DOMAIN_BASIS);
    let mut expected = Vec::new();
    expected.extend_from_slice(&4u64.to_le_bytes());
    expected.push(0u8);
    expected.push(0u8);
    assert_eq!(binding.canonical_bytes(), &expected[..]);
}

#[test]
fn basis_descriptors_with_different_degrees_produce_different_bindings() {
    let b2 = BasisDescriptor::plonky3_binomial(2).to_transcript_binding();
    let b4 = BasisDescriptor::plonky3_binomial(4).to_transcript_binding();
    assert_ne!(b2, b4);
}

#[test]
fn domain_labels_are_distinct_across_all_constants() {
    let labels = [
        DOMAIN_PROFILE,
        DOMAIN_BASIS,
        DOMAIN_ORACLE_COMMITMENT,
        DOMAIN_RANDOMIZER_COMMITMENT,
        DOMAIN_DEGREE_CONTRACT,
        DOMAIN_SECURITY_LEVEL,
        DOMAIN_PUBLIC_OPENINGS,
    ];
    for i in 0..labels.len() {
        for j in (i + 1)..labels.len() {
            assert_ne!(labels[i], labels[j], "domain labels {i} and {j} collide");
        }
    }
}

#[test]
fn transcript_binding_error_displays_missing_label() {
    let err = TranscriptBindingError::MissingBinding {
        domain_label: "SHROUD_V1_BASIS".to_string(),
    };
    let msg = err.message();
    assert!(msg.contains("SHROUD_V1_BASIS"));
    assert!(msg.contains("missing"));
}

#[test]
fn empty_manifest_has_no_requirements_for_any_stage() {
    let manifest = TranscriptBindingManifest::new();
    assert!(manifest
        .required_before(TranscriptStage::SampleBatchingChallenge)
        .is_empty());
    assert!(manifest
        .required_before(TranscriptStage::SampleOodPoint)
        .is_empty());
    assert!(manifest
        .required_before(TranscriptStage::ProveMaskedRelation)
        .is_empty());
    assert!(manifest
        .required_before(TranscriptStage::ObserveMainCommitments)
        .is_empty());
}

#[test]
fn manifest_routes_bindings_to_correct_stage() {
    let basis_binding = BasisDescriptor::plonky3_binomial(4).to_transcript_binding();
    let manifest =
        TranscriptBindingManifest::new().with_before_batching_challenge(basis_binding.clone());
    assert_eq!(
        manifest.required_before(TranscriptStage::SampleBatchingChallenge),
        &[basis_binding]
    );
    assert!(manifest
        .required_before(TranscriptStage::SampleOodPoint)
        .is_empty());
}

#[test]
fn binding_mismatch_message_quotes_label() {
    let err = TranscriptBindingError::BindingMismatch {
        domain_label: "SHROUD_V1_PROFILE".to_string(),
    };
    let msg = err.message();
    assert!(msg.starts_with("transcript binding mismatch: a binding for domain label \"SHROUD_V1_PROFILE\" was absorbed"));
}

#[test]
fn hash_identifier_binding_is_length_prefixed_suite() {
    let id = HashIdentifier::new("keccak".to_string());
    assert_eq!(id.suite(), "keccak");
    let b = id.to_transcript_binding();
    assert_eq!(b.domain_label(), DOMAIN_HASH_ID);
    let mut expected = 6u64.to_le_bytes().to_vec();
    expected.extend_from_slice(b"keccak");
    assert_eq!(b.canonical_bytes(), &expected[..]);
}

#[test]
fn manifest_routes_each_stage_independently() {
    let a = SecurityLevel::Statistical.to_transcript_binding();
    let b = SecurityLevel::Perfect.to_transcript_binding();
    let c = BasisDescriptor::plonky3_binomial(2).to_transcript_binding();
    let m = TranscriptBindingManifest::new()
        .with_before_ood_point(a.clone())
        .with_before_prove_masked(b.clone())
        .with_before_prove_masked(c.clone());
    assert!(m.required_before(TranscriptStage::SampleBatchingChallenge).is_empty());
    assert_eq!(m.required_before(TranscriptStage::SampleOodPoint), &[a]);
    assert_eq!(m.required_before(TranscriptStage::ProveMaskedRelation), &[b, c]);
}
