use shroud::{
    pre_grind_bindings, LivePreGrindExtraction, StandardBatchOpeningBindings,
    BasisDescriptor, HashIdentifier, Plonky3UniStarkBindings, SecurityLevel, TranscriptBindable,
    TranscriptBinding, TranscriptBindingManifest, TranscriptStage, DOMAIN_BASIS,
    DOMAIN_BATCH_OPENING, DOMAIN_CODEWORD_EMBEDDING, DOMAIN_DEGREE_BUDGET, DOMAIN_DEGREE_CONTRACT,
    DOMAIN_HASH_ID, DOMAIN_HIDING_TECHNIQUE, DOMAIN_OPENING_PROJECTION, DOMAIN_ORACLE_COMMITMENT,
    DOMAIN_PLONKY3_AIR_PUBLIC_VALUES, DOMAIN_PLONKY3_FRI_COMMIT_PHASE_COMMITMENTS,
    DOMAIN_PLONKY3_FRI_FINAL_POLY, DOMAIN_PLONKY3_FRI_LOG_ARITIES, DOMAIN_PLONKY3_LOG_DEGREE,
    DOMAIN_PLONKY3_LOG_EXT_DEGREE, DOMAIN_PLONKY3_OPENED_VALUES,
    DOMAIN_PLONKY3_PREPROCESSED_COMMITMENT, DOMAIN_PLONKY3_PREPROCESSED_WIDTH,
    DOMAIN_PLONKY3_QUOTIENT_COMMITMENT, DOMAIN_PLONKY3_TRACE_COMMITMENT, DOMAIN_PROFILE,
    DOMAIN_PUBLIC_OPENINGS, DOMAIN_QUOTIENT_HIDER, DOMAIN_RANDOMIZER_COMMITMENT,
    DOMAIN_SAMPLED_CHALLENGE, DOMAIN_SECURITY_LEVEL,
};

fn synthetic_bindings() -> Plonky3UniStarkBindings {
    Plonky3UniStarkBindings::new(
        vec![0x01],
        vec![0x02, 0x02],
        vec![0x03, 0x03, 0x03],
        vec![0x04; 32],
        vec![0x06, 0x06, 0x06, 0x06],
        vec![0x08; 32],
        vec![0x0C; 64],
        vec![0x0E; 96],
        vec![0x11; 16],
        vec![0x12, 0x12],
    )
}

fn plonky3_labels() -> [&'static str; 11] {
    [
        DOMAIN_PLONKY3_LOG_EXT_DEGREE,
        DOMAIN_PLONKY3_LOG_DEGREE,
        DOMAIN_PLONKY3_PREPROCESSED_WIDTH,
        DOMAIN_PLONKY3_TRACE_COMMITMENT,
        DOMAIN_PLONKY3_PREPROCESSED_COMMITMENT,
        DOMAIN_PLONKY3_AIR_PUBLIC_VALUES,
        DOMAIN_PLONKY3_QUOTIENT_COMMITMENT,
        DOMAIN_PLONKY3_OPENED_VALUES,
        DOMAIN_PLONKY3_FRI_COMMIT_PHASE_COMMITMENTS,
        DOMAIN_PLONKY3_FRI_FINAL_POLY,
        DOMAIN_PLONKY3_FRI_LOG_ARITIES,
    ]
}

#[test]
fn all_plonky3_domain_labels_are_distinct() {
    let labels = plonky3_labels();
    for i in 0..labels.len() {
        for j in (i + 1)..labels.len() {
            assert_ne!(labels[i], labels[j], "labels {i} and {j} collide");
        }
    }
}

#[test]
fn plonky3_domain_labels_use_distinct_prefix_from_shroud_core() {
    for label in plonky3_labels() {
        assert!(
            label.starts_with("SHROUD_V1_PLONKY3_"),
            "label {label:?} missing required prefix"
        );
    }
}

#[test]
fn plonky3_domain_labels_disjoint_from_shroud_core_labels() {
    let core_labels = [
        DOMAIN_PROFILE,
        DOMAIN_BASIS,
        DOMAIN_ORACLE_COMMITMENT,
        DOMAIN_RANDOMIZER_COMMITMENT,
        DOMAIN_DEGREE_CONTRACT,
        DOMAIN_SECURITY_LEVEL,
        DOMAIN_PUBLIC_OPENINGS,
        DOMAIN_BATCH_OPENING,
        DOMAIN_CODEWORD_EMBEDDING,
        DOMAIN_OPENING_PROJECTION,
        DOMAIN_QUOTIENT_HIDER,
        DOMAIN_DEGREE_BUDGET,
        DOMAIN_HIDING_TECHNIQUE,
        DOMAIN_HASH_ID,
        DOMAIN_SAMPLED_CHALLENGE,
    ];
    for p in plonky3_labels() {
        for c in core_labels {
            assert_ne!(p, c, "Plonky3 label {p:?} collides with core label {c:?}");
        }
    }
}

#[test]
fn constructor_stamps_correct_domain_labels() {
    let b = synthetic_bindings();
    assert_eq!(b.log_ext_degree().domain_label(), DOMAIN_PLONKY3_LOG_EXT_DEGREE);
    assert_eq!(b.log_degree().domain_label(), DOMAIN_PLONKY3_LOG_DEGREE);
    assert_eq!(
        b.preprocessed_width().domain_label(),
        DOMAIN_PLONKY3_PREPROCESSED_WIDTH
    );
    assert_eq!(
        b.trace_commitment().domain_label(),
        DOMAIN_PLONKY3_TRACE_COMMITMENT
    );
    assert!(b.preprocessed_commitment().is_none());
    assert_eq!(
        b.air_public_values().domain_label(),
        DOMAIN_PLONKY3_AIR_PUBLIC_VALUES
    );
    assert_eq!(
        b.quotient_commitment().domain_label(),
        DOMAIN_PLONKY3_QUOTIENT_COMMITMENT
    );
    assert_eq!(b.opened_values().domain_label(), DOMAIN_PLONKY3_OPENED_VALUES);
    assert_eq!(
        b.fri_commit_phase_commitments().domain_label(),
        DOMAIN_PLONKY3_FRI_COMMIT_PHASE_COMMITMENTS,
    );
    assert_eq!(b.fri_final_poly().domain_label(), DOMAIN_PLONKY3_FRI_FINAL_POLY);
    assert_eq!(b.fri_log_arities().domain_label(), DOMAIN_PLONKY3_FRI_LOG_ARITIES);
}

#[test]
fn constructor_preserves_byte_payloads() {
    let b = synthetic_bindings();
    assert_eq!(b.log_ext_degree().canonical_bytes(), &[0x01]);
    assert_eq!(b.log_degree().canonical_bytes(), &[0x02, 0x02]);
    assert_eq!(b.preprocessed_width().canonical_bytes(), &[0x03, 0x03, 0x03]);
    assert_eq!(b.trace_commitment().canonical_bytes(), &[0x04; 32]);
    assert_eq!(b.air_public_values().canonical_bytes(), &[0x06, 0x06, 0x06, 0x06]);
    assert_eq!(b.quotient_commitment().canonical_bytes(), &[0x08; 32]);
    assert_eq!(b.opened_values().canonical_bytes(), &[0x0C; 64]);
    assert_eq!(b.fri_commit_phase_commitments().canonical_bytes(), &[0x0E; 96]);
    assert_eq!(b.fri_final_poly().canonical_bytes(), &[0x11; 16]);
    assert_eq!(b.fri_log_arities().canonical_bytes(), &[0x12, 0x12]);
}

#[test]
fn with_preprocessed_commitment_attaches_event_5() {
    let b = synthetic_bindings().with_preprocessed_commitment(vec![0x05; 32]);
    let pre = b.preprocessed_commitment().expect("event 5 should be present");
    assert_eq!(pre.domain_label(), DOMAIN_PLONKY3_PREPROCESSED_COMMITMENT);
    assert_eq!(pre.canonical_bytes(), &[0x05; 32]);
    assert_eq!(b.trace_commitment().canonical_bytes(), &[0x04; 32]);
}

fn base_manifest() -> TranscriptBindingManifest {
    let hash_id = HashIdentifier::new("shroud-plonky3-test-suite-v1".to_string());
    TranscriptBindingManifest::standard_for_batch_opening(StandardBatchOpeningBindings {
        hash_identifier: hash_id.to_transcript_binding(),
        profile: TranscriptBinding::new(DOMAIN_PROFILE, vec![2, 4]),
        basis: BasisDescriptor::plonky3_binomial(4).to_transcript_binding(),
        batch_opening: TranscriptBinding::new(DOMAIN_BATCH_OPENING, vec![1]),
        codeword_embedding: TranscriptBinding::new(DOMAIN_CODEWORD_EMBEDDING, vec![2]),
        oracle_commitment: TranscriptBinding::new(DOMAIN_ORACLE_COMMITMENT, vec![3]),
        opening_projection: TranscriptBinding::new(DOMAIN_OPENING_PROJECTION, vec![4]),
        quotient_hider: TranscriptBinding::new(DOMAIN_QUOTIENT_HIDER, vec![5]),
        security_level: SecurityLevel::Statistical.to_transcript_binding(),
        degree_contract: TranscriptBinding::new(DOMAIN_DEGREE_CONTRACT, vec![6]),
        randomizer_commitment: TranscriptBinding::new(DOMAIN_RANDOMIZER_COMMITMENT, vec![0xAB; 32]),
        public_openings: TranscriptBinding::new(DOMAIN_PUBLIC_OPENINGS, vec![0xCD; 16]),
    })
}

fn labels(m: &TranscriptBindingManifest, stage: TranscriptStage) -> Vec<&'static str> {
    m.required_before(stage)
        .iter()
        .map(TranscriptBinding::domain_label)
        .collect()
}

#[test]
fn into_manifest_adds_plonky3_events_to_batching_challenge_stage() {
    let manifest = synthetic_bindings().into_manifest(base_manifest());
    let domains = labels(&manifest, TranscriptStage::SampleBatchingChallenge);
    assert!(domains.contains(&DOMAIN_PLONKY3_LOG_EXT_DEGREE));
    assert!(domains.contains(&DOMAIN_PLONKY3_LOG_DEGREE));
    assert!(domains.contains(&DOMAIN_PLONKY3_PREPROCESSED_WIDTH));
    assert!(domains.contains(&DOMAIN_PLONKY3_TRACE_COMMITMENT));
    assert!(domains.contains(&DOMAIN_PLONKY3_AIR_PUBLIC_VALUES));
    assert!(!domains.contains(&DOMAIN_PLONKY3_PREPROCESSED_COMMITMENT));
}

#[test]
fn into_manifest_includes_preprocessed_when_present() {
    let bindings = synthetic_bindings().with_preprocessed_commitment(vec![0x05; 32]);
    let manifest = bindings.into_manifest(base_manifest());
    let domains = labels(&manifest, TranscriptStage::SampleBatchingChallenge);
    assert!(domains.contains(&DOMAIN_PLONKY3_PREPROCESSED_COMMITMENT));
}

#[test]
fn into_manifest_adds_quotient_commitment_to_ood_point_stage() {
    let manifest = synthetic_bindings().into_manifest(base_manifest());
    let domains = labels(&manifest, TranscriptStage::SampleOodPoint);
    assert!(domains.contains(&DOMAIN_PLONKY3_QUOTIENT_COMMITMENT));
    assert!(domains.contains(&DOMAIN_RANDOMIZER_COMMITMENT));
}

#[test]
fn into_manifest_adds_fri_envelope_to_prove_masked_stage() {
    let manifest = synthetic_bindings().into_manifest(base_manifest());
    let domains = labels(&manifest, TranscriptStage::ProveMaskedRelation);
    assert!(domains.contains(&DOMAIN_PLONKY3_OPENED_VALUES));
    assert!(domains.contains(&DOMAIN_PLONKY3_FRI_COMMIT_PHASE_COMMITMENTS));
    assert!(domains.contains(&DOMAIN_PLONKY3_FRI_FINAL_POLY));
    assert!(domains.contains(&DOMAIN_PLONKY3_FRI_LOG_ARITIES));
}

#[test]
fn into_manifest_preserves_standard_canonical_labels() {
    let manifest = synthetic_bindings().into_manifest(base_manifest());
    let batching = labels(&manifest, TranscriptStage::SampleBatchingChallenge);
    for required in &[
        DOMAIN_HASH_ID,
        DOMAIN_PROFILE,
        DOMAIN_BASIS,
        DOMAIN_BATCH_OPENING,
        DOMAIN_CODEWORD_EMBEDDING,
        DOMAIN_ORACLE_COMMITMENT,
        DOMAIN_OPENING_PROJECTION,
        DOMAIN_QUOTIENT_HIDER,
        DOMAIN_SECURITY_LEVEL,
    ] {
        assert!(
            batching.contains(required),
            "canonical label {required:?} missing from composed manifest"
        );
    }
}

#[test]
fn into_manifest_per_stage_label_order_plonky3_appended() {
    let manifest = synthetic_bindings()
        .with_preprocessed_commitment(vec![0x05; 32])
        .into_manifest(base_manifest());
    let batching = labels(&manifest, TranscriptStage::SampleBatchingChallenge);
    assert_eq!(
        batching,
        vec![
            DOMAIN_HASH_ID,
            DOMAIN_PROFILE,
            DOMAIN_BASIS,
            DOMAIN_BATCH_OPENING,
            DOMAIN_CODEWORD_EMBEDDING,
            DOMAIN_ORACLE_COMMITMENT,
            DOMAIN_OPENING_PROJECTION,
            DOMAIN_QUOTIENT_HIDER,
            DOMAIN_SECURITY_LEVEL,
            DOMAIN_PLONKY3_LOG_EXT_DEGREE,
            DOMAIN_PLONKY3_LOG_DEGREE,
            DOMAIN_PLONKY3_PREPROCESSED_WIDTH,
            DOMAIN_PLONKY3_TRACE_COMMITMENT,
            DOMAIN_PLONKY3_PREPROCESSED_COMMITMENT,
            DOMAIN_PLONKY3_AIR_PUBLIC_VALUES,
        ]
    );
    assert_eq!(
        labels(&manifest, TranscriptStage::SampleOodPoint),
        vec![
            DOMAIN_DEGREE_CONTRACT,
            DOMAIN_RANDOMIZER_COMMITMENT,
            DOMAIN_PLONKY3_QUOTIENT_COMMITMENT
        ]
    );
    assert_eq!(
        labels(&manifest, TranscriptStage::ProveMaskedRelation),
        vec![
            DOMAIN_PUBLIC_OPENINGS,
            DOMAIN_PLONKY3_OPENED_VALUES,
            DOMAIN_PLONKY3_FRI_COMMIT_PHASE_COMMITMENTS,
            DOMAIN_PLONKY3_FRI_FINAL_POLY,
            DOMAIN_PLONKY3_FRI_LOG_ARITIES,
        ]
    );
}

#[test]
fn absorb_into_writes_every_event_in_time_order() {
    let bindings = synthetic_bindings().with_preprocessed_commitment(vec![0x05; 32]);
    let mut record: Vec<TranscriptBinding> = Vec::new();
    bindings.absorb_into(&mut record);
    let got: Vec<_> = record.iter().map(TranscriptBinding::domain_label).collect();
    assert_eq!(
        got,
        vec![
            DOMAIN_PLONKY3_LOG_EXT_DEGREE,
            DOMAIN_PLONKY3_LOG_DEGREE,
            DOMAIN_PLONKY3_PREPROCESSED_WIDTH,
            DOMAIN_PLONKY3_TRACE_COMMITMENT,
            DOMAIN_PLONKY3_PREPROCESSED_COMMITMENT,
            DOMAIN_PLONKY3_AIR_PUBLIC_VALUES,
            DOMAIN_PLONKY3_QUOTIENT_COMMITMENT,
            DOMAIN_PLONKY3_OPENED_VALUES,
            DOMAIN_PLONKY3_FRI_COMMIT_PHASE_COMMITMENTS,
            DOMAIN_PLONKY3_FRI_FINAL_POLY,
            DOMAIN_PLONKY3_FRI_LOG_ARITIES,
        ]
    );
    assert_eq!(record[4].canonical_bytes(), &[0x05; 32]);
}

#[test]
fn absorb_into_skips_preprocessed_when_none() {
    let bindings = synthetic_bindings();
    let mut record = vec![SecurityLevel::Perfect.to_transcript_binding()];
    bindings.absorb_into(&mut record);
    assert_eq!(record.len(), 11);
    assert_eq!(record[0].domain_label(), DOMAIN_SECURITY_LEVEL);
    let has_preprocessed = record
        .iter()
        .any(|b| b.domain_label() == DOMAIN_PLONKY3_PREPROCESSED_COMMITMENT);
    assert!(!has_preprocessed, "preprocessed commitment must be absent when not attached");
}

#[test]
fn pre_grind_bindings_wire_live_and_placeholder_slots() {
    let extraction = LivePreGrindExtraction {
        log_ext_degree: vec![0x01; 4],
        log_degree: vec![0x02; 4],
        preprocessed_width: vec![0x03; 4],
        trace_commit: vec![0x04; 32],
        preprocessed_commit: Some(vec![0x05; 32]),
        air_public_values: vec![0x06; 8],
        quotient_commit: vec![0x08; 32],
        randomizer_commit: vec![0x09; 32],
    };
    let (b, randomizer) = pre_grind_bindings(
        &extraction,
        vec![0x0C; 16],
        vec![0x0E; 32],
        vec![0x11; 16],
        vec![0x12; 4],
    );
    assert_eq!(b.log_ext_degree().canonical_bytes(), &[0x01; 4]);
    assert_eq!(b.trace_commitment().canonical_bytes(), &[0x04; 32]);
    let pre = b.preprocessed_commitment().expect("preprocessed commitment wired");
    assert_eq!(pre.domain_label(), DOMAIN_PLONKY3_PREPROCESSED_COMMITMENT);
    assert_eq!(pre.canonical_bytes(), &[0x05; 32]);
    assert_eq!(b.air_public_values().canonical_bytes(), &[0x06; 8]);
    assert_eq!(b.quotient_commitment().canonical_bytes(), &[0x08; 32]);
    assert_eq!(b.opened_values().canonical_bytes(), &[0x0C; 16]);
    assert_eq!(b.fri_log_arities().canonical_bytes(), &[0x12; 4]);
    assert_eq!(randomizer.domain_label(), DOMAIN_RANDOMIZER_COMMITMENT);
    assert_eq!(randomizer.canonical_bytes(), &[0x09; 32]);

    let without = LivePreGrindExtraction { preprocessed_commit: None, ..extraction };
    let (b2, _) = pre_grind_bindings(&without, vec![], vec![], vec![], vec![]);
    assert!(b2.preprocessed_commitment().is_none());
}
