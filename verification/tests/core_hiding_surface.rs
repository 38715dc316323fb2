use shroud::{
    AuxiliaryTransport, HiddenAuxiliarySurface, HidingTechniqueClaim, PublicSurface, QueryBudget,
    TranscriptPlan, TranscriptPlanError, TranscriptStage,
};

#[test]
fn display_named_variants() {
    assert_eq!(
        HidingTechniqueClaim::RandomCodewordInterleaving.message(),
        "random codeword interleaving"
    );
    assert_eq!(
        HidingTechniqueClaim::AdditiveVanishingMask.message(),
        "additive vanishing mask"
    );
    assert_eq!(
        HidingTechniqueClaim::QuotientChunkRandomization.message(),
        "quotient chunk randomization"
    );
    assert_eq!(
        HidingTechniqueClaim::RandomRowPadding.message(),
        "random row padding"
    );
}

#[test]
fn display_backend_specific() {
    let claim = HidingTechniqueClaim::BackendSpecific("bivariate sumcheck masking".to_string());
    assert_eq!(
        claim.message(),
        "backend-specific (bivariate sumcheck masking)"
    );
}

#[test]
fn display_composite_renders_both_branches() {
    let claim = HidingTechniqueClaim::Composite(
        Box::new(HidingTechniqueClaim::RandomCodewordInterleaving),
        Box::new(HidingTechniqueClaim::QuotientChunkRandomization),
    );
    assert_eq!(
        claim.message(),
        "random codeword interleaving + quotient chunk randomization"
    );
}

#[test]
fn contains_returns_true_for_direct_match() {
    assert!(HidingTechniqueClaim::RandomCodewordInterleaving
        .contains(&HidingTechniqueClaim::RandomCodewordInterleaving));
    assert!(!HidingTechniqueClaim::RandomCodewordInterleaving
        .contains(&HidingTechniqueClaim::AdditiveVanishingMask));
}

#[test]
fn backend_specific_contains_matches_string_exactly() {
    let foo = HidingTechniqueClaim::BackendSpecific("foo".to_string());
    let bar = HidingTechniqueClaim::BackendSpecific("bar".to_string());
    let foo2 = HidingTechniqueClaim::BackendSpecific("foo".to_string());
    assert!(foo.contains(&foo2));
    assert!(!foo.contains(&bar));
    assert!(!bar.contains(&foo));
}

#[test]
fn contains_finds_technique_inside_composite() {
    let composite = HidingTechniqueClaim::Composite(
        Box::new(HidingTechniqueClaim::RandomCodewordInterleaving),
        Box::new(HidingTechniqueClaim::RandomRowPadding),
    );
    assert!(composite.contains(&HidingTechniqueClaim::RandomCodewordInterleaving));
    assert!(composite.contains(&HidingTechniqueClaim::RandomRowPadding));
    assert!(!composite.contains(&HidingTechniqueClaim::QuotientChunkRandomization));
}

#[test]
fn contains_finds_technique_in_nested_composite() {
    let inner = HidingTechniqueClaim::Composite(
        Box::new(HidingTechniqueClaim::RandomCodewordInterleaving),
        Box::new(HidingTechniqueClaim::QuotientChunkRandomization),
    );
    let outer = HidingTechniqueClaim::Composite(
        Box::new(inner),
        Box::new(HidingTechniqueClaim::RandomRowPadding),
    );
    assert!(outer.contains(&HidingTechniqueClaim::QuotientChunkRandomization));
    assert!(outer.contains(&HidingTechniqueClaim::RandomRowPadding));
    assert!(!outer.contains(&HidingTechniqueClaim::AdditiveVanishingMask));
}

#[test]
fn hiding_fri_pcs_composite_claim_layers_1_3_4() {
    let claim = HidingTechniqueClaim::Composite(
        Box::new(HidingTechniqueClaim::Composite(
            Box::new(HidingTechniqueClaim::RandomCodewordInterleaving),
            Box::new(HidingTechniqueClaim::QuotientChunkRandomization),
        )),
        Box::new(HidingTechniqueClaim::RandomRowPadding),
    );
    assert!(claim.contains(&HidingTechniqueClaim::RandomCodewordInterleaving));
    assert!(claim.contains(&HidingTechniqueClaim::QuotientChunkRandomization));
    assert!(claim.contains(&HidingTechniqueClaim::RandomRowPadding));
    assert!(!claim.contains(&HidingTechniqueClaim::AdditiveVanishingMask));
}

#[test]
fn named_variants_produce_single_byte_encodings() {
    assert_eq!(
        HidingTechniqueClaim::RandomCodewordInterleaving.to_canonical_bytes(),
        vec![0u8]
    );
    assert_eq!(
        HidingTechniqueClaim::AdditiveVanishingMask.to_canonical_bytes(),
        vec![1u8]
    );
    assert_eq!(
        HidingTechniqueClaim::QuotientChunkRandomization.to_canonical_bytes(),
        vec![2u8]
    );
    assert_eq!(
        HidingTechniqueClaim::RandomRowPadding.to_canonical_bytes(),
        vec![3u8]
    );
}

#[test]
fn composite_encoding_starts_with_discriminant_4() {
    let claim = HidingTechniqueClaim::Composite(
        Box::new(HidingTechniqueClaim::RandomCodewordInterleaving),
        Box::new(HidingTechniqueClaim::RandomRowPadding),
    );
    let bytes = claim.to_canonical_bytes();
    assert_eq!(bytes[0], 4u8);
}

#[test]
fn backend_specific_encoding_starts_with_discriminant_5() {
    let claim = HidingTechniqueClaim::BackendSpecific("custom".to_string());
    let bytes = claim.to_canonical_bytes();
    assert_eq!(bytes[0], 5u8);
}

#[test]
fn different_techniques_produce_different_encodings() {
    let a = HidingTechniqueClaim::RandomCodewordInterleaving.to_canonical_bytes();
    let b = HidingTechniqueClaim::AdditiveVanishingMask.to_canonical_bytes();
    assert_ne!(a, b);
}

#[test]
fn composite_and_backend_specific_encodings_are_length_prefixed() {
    let claim = HidingTechniqueClaim::Composite(
        Box::new(HidingTechniqueClaim::RandomCodewordInterleaving),
        Box::new(HidingTechniqueClaim::BackendSpecific("ab".to_string())),
    );
    assert_eq!(
        claim.to_canonical_bytes(),
        vec![4, 1, 0, 0, 0, 0, 7, 0, 0, 0, 5, 2, 0, 0, 0, b'a', b'b']
    );
}

#[test]
fn cloned_claim_is_equal() {
    let claim = HidingTechniqueClaim::Composite(
        Box::new(HidingTechniqueClaim::RandomRowPadding),
        Box::new(HidingTechniqueClaim::BackendSpecific("x".to_string())),
    );
    assert_eq!(claim.clone(), claim);
}

#[test]
fn public_surface_rejects_zero() {
    assert!(PublicSurface::new(0).is_none());
}

#[test]
fn public_surface_accepts_nonzero() {
    let s = PublicSurface::new(3).expect("valid");
    assert_eq!(s.count(), 3);
    assert_eq!(s.message(), "3 public item(s)");
}

#[test]
fn hidden_surface_rejects_zero() {
    assert!(HiddenAuxiliarySurface::new(0, AuxiliaryTransport::InBand).is_none());
}

#[test]
fn hidden_surface_tracks_transport() {
    let s = HiddenAuxiliarySurface::new(5, AuxiliaryTransport::SeparateEnvelope).expect("valid");
    assert_eq!(s.count(), 5);
    assert_eq!(s.transport(), AuxiliaryTransport::SeparateEnvelope);
}

#[test]
fn query_budget_rejects_zero() {
    assert!(QueryBudget::new(0).is_none());
}

#[test]
fn query_budget_accepts_nonzero() {
    let q = QueryBudget::new(40).expect("valid");
    assert_eq!(q.get(), 40);
    assert!(q > QueryBudget::new(1).unwrap());
}

fn canonical_stages() -> Vec<TranscriptStage> {
    vec![
        TranscriptStage::ObserveMainCommitments,
        TranscriptStage::SampleBatchingChallenge,
        TranscriptStage::ObserveQuotientCommitments,
        TranscriptStage::ObserveRandomizerCommitment,
        TranscriptStage::SampleOodPoint,
        TranscriptStage::ObservePublicOpenings,
        TranscriptStage::ProveMaskedRelation,
    ]
}

#[test]
fn standard_plan_is_valid() {
    let plan = TranscriptPlan::standard_batch_opening();
    assert!(plan.validate().is_ok());
    assert_eq!(plan.stages(), &canonical_stages()[..]);
}

#[test]
fn rejects_out_of_order_randomizer_commitment() {
    let plan = TranscriptPlan::new(vec![
        TranscriptStage::ObserveMainCommitments,
        TranscriptStage::SampleBatchingChallenge,
        TranscriptStage::SampleOodPoint,
        TranscriptStage::ObserveQuotientCommitments,
        TranscriptStage::ObserveRandomizerCommitment,
        TranscriptStage::ObservePublicOpenings,
        TranscriptStage::ProveMaskedRelation,
    ]);

    assert_eq!(
        plan.validate(),
        Err(TranscriptPlanError::OutOfOrder {
            previous: TranscriptStage::SampleOodPoint,
            observed: TranscriptStage::ObserveQuotientCommitments,
        })
    );
}

#[test]
fn every_transposition_of_canonical_stages_is_invalid() {
    for i in 0..7 {
        for j in 0..7 {
            if i == j {
                continue;
            }
            let mut stages = canonical_stages();
            stages.swap(i, j);
            assert!(TranscriptPlan::new(stages).validate().is_err());
        }
    }
}

#[test]
fn missing_and_duplicate_stages_are_reported() {
    let mut stages = canonical_stages();
    stages.pop();
    assert_eq!(
        TranscriptPlan::new(stages).validate(),
        Err(TranscriptPlanError::MissingStage(TranscriptStage::ProveMaskedRelation))
    );
    let mut stages = canonical_stages();
    stages.insert(1, TranscriptStage::ObserveMainCommitments);
    assert_eq!(
        TranscriptPlan::new(stages).validate(),
        Err(TranscriptPlanError::DuplicateStage(TranscriptStage::ObserveMainCommitments))
    );
}

#[test]
fn plan_error_message_names_stages() {
    let e = TranscriptPlanError::OutOfOrder {
        previous: TranscriptStage::SampleOodPoint,
        observed: TranscriptStage::ObserveQuotientCommitments,
    };
    assert_eq!(
        e.message(),
        "transcript stage observe quotient commitments appears before it is allowed after sample out-of-domain point"
    );
}

#[test]
fn canonical_claim_encodings_are_pairwise_distinct() {
    let leaf = |c: HidingTechniqueClaim| Box::new(c);
    let claims = vec![
        HidingTechniqueClaim::RandomCodewordInterleaving,
        HidingTechniqueClaim::AdditiveVanishingMask,
        HidingTechniqueClaim::QuotientChunkRandomization,
        HidingTechniqueClaim::RandomRowPadding,
        HidingTechniqueClaim::BackendSpecific(String::new()),
        HidingTechniqueClaim::BackendSpecific("a".to_string()),
        HidingTechniqueClaim::BackendSpecific("ab".to_string()),
        HidingTechniqueClaim::Composite(
            leaf(HidingTechniqueClaim::RandomCodewordInterleaving),
            leaf(HidingTechniqueClaim::RandomRowPadding),
        ),
        HidingTechniqueClaim::Composite(
            leaf(HidingTechniqueClaim::RandomRowPadding),
            leaf(HidingTechniqueClaim::RandomCodewordInterleaving),
        ),
        HidingTechniqueClaim::Composite(
            leaf(HidingTechniqueClaim::BackendSpecific("a".to_string())),
            leaf(HidingTechniqueClaim::BackendSpecific("b".to_string())),
        ),
        HidingTechniqueClaim::Composite(
            leaf(HidingTechniqueClaim::BackendSpecific("ab".to_string())),
            leaf(HidingTechniqueClaim::BackendSpecific(String::new())),
        ),
    ];
    for (i, x) in claims.iter().enumerate() {
        for (j, y) in claims.iter().enumerate() {
            assert_eq!(
                i == j,
                x.to_canonical_bytes() == y.to_canonical_bytes(),
                "claims {i} and {j}"
            );
        }
    }
    assert_eq!(
        HidingTechniqueClaim::Composite(
            leaf(HidingTechniqueClaim::RandomCodewordInterleaving),
            leaf(HidingTechniqueClaim::RandomRowPadding),
        )
        .to_canonical_bytes(),
        vec![4, 1, 0, 0, 0, 0, 1, 0, 0, 0, 3]
    );
}
