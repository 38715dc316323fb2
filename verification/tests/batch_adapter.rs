use shroud::{
    FieldModel, PerfectClaim, RandomnessModel, SimulatorObligations,
    proof_slot_layout, AuxiliaryOpeningTransport, BasisDescriptor, BatchOpeningAdapterPlan,
    BatchOpeningShape, BatchOpeningSpecError, CodewordEmbeddingAdapterPlan,
    CodewordEmbeddingShape, CommitmentBoundary, DegreeBudget, HiddenOpeningTransport,
    OpeningProjectionAdapterPlan, OpeningProjectionShape, OracleAuxiliaryTransport,
    OracleCommitmentAdapterPlan, OracleCommitmentShape, PerfectHiddenOpeningPayload,
    PerfectRandomizerCommitment, PerfectRandomizerRealization, ProofSlotLayout,
    QuotientAuxiliaryTransport, QuotientDecompositionFamily, QuotientDegreeContract,
    QuotientHiderAdapterPlan, QuotientHiderShape, RandomizerOpeningPayload, RandomizerSpec,
    SecurityLevel, ShroudBatchOpeningSpec, ShroudCodewordEmbeddingSpec,
    ShroudOpeningProjectionSpec, ShroudOracleCommitmentSpec, ShroudQuotientHiderSpec,
};

fn encoded_perfect_claim(extension_degree: usize) -> PerfectClaim {
    PerfectClaim::new(
        RandomnessModel::UniformPerProof,
        FieldModel::EncodedCoordinates { extension_degree },
        64,
        SimulatorObligations::HonestVerifierChallengeAccess,
        true,
    )
    .expect("valid encoded perfect claim")
}

fn valid_native_perfect_claim(extension_degree: usize) -> PerfectClaim {
    PerfectClaim::new(
        RandomnessModel::UniformPerProof,
        FieldModel::NativeExtension { extension_degree },
        64,
        SimulatorObligations::HonestVerifierChallengeAccess,
        true,
    )
    .expect("valid native perfect claim")
}

#[test]
fn statistical_spec_tracks_coordinate_polynomials_from_extension_degree() {
    let shape = BatchOpeningShape::new(6, 2, 4).expect("valid shape");
    let spec = ShroudBatchOpeningSpec::statistical(shape, 31).expect("valid spec");

    assert_eq!(spec.security_level(), SecurityLevel::Statistical);
    assert_eq!(spec.commitment_boundary(), CommitmentBoundary::SharedPcsHook);
    assert_eq!(spec.public_randomizer_evaluations(), 2);

    match spec.randomizer() {
        RandomizerSpec::Statistical(model) => assert_eq!(model.coordinate_polynomials(), 4),
        RandomizerSpec::Perfect(_) => panic!("expected statistical randomizer"),
    }

    match spec.randomizer_opening_payload() {
        RandomizerOpeningPayload::Statistical(payload) => {
            assert_eq!(payload.public_extension_evaluations(), 2);
            assert_eq!(payload.hidden_base_field_coordinate_evaluations(), 8);
            assert_eq!(
                payload.proof_slot_layout(),
                ProofSlotLayout::ReuseCurrentRandomSlot
            );
            assert_eq!(
                payload.hidden_opening_transport(),
                HiddenOpeningTransport::InBandWithMainOpeningProof
            );
        }
        RandomizerOpeningPayload::Perfect(_) => panic!("expected statistical payload"),
    }
}

#[test]
fn perfect_spec_uses_dedicated_auxiliary_boundary() {
    let shape = BatchOpeningShape::new(6, 1, 2).expect("valid shape");
    let commitment =
        PerfectRandomizerCommitment::encoded_oracle_bundle(BasisDescriptor::plonky3_binomial(2));
    let spec = ShroudBatchOpeningSpec::perfect(shape, 15, commitment, encoded_perfect_claim(2))
        .expect("valid spec");

    assert_eq!(spec.security_level(), SecurityLevel::Perfect);
    assert_eq!(
        spec.commitment_boundary(),
        CommitmentBoundary::DedicatedAuxiliaryPath
    );

    match spec.randomizer() {
        RandomizerSpec::Perfect(model) => {
            assert_eq!(
                model.realization(),
                PerfectRandomizerRealization::EncodedOracleBundle {
                    basis: BasisDescriptor::plonky3_binomial(2),
                }
            );
            assert_eq!(
                model.proof_slot_layout(),
                ProofSlotLayout::ReuseCurrentRandomSlot
            );
        }
        RandomizerSpec::Statistical(_) => panic!("expected perfect randomizer"),
    }

    match spec.randomizer_opening_payload() {
        RandomizerOpeningPayload::Perfect(payload) => {
            assert_eq!(payload.public_extension_evaluations(), 1);
            assert_eq!(
                payload.proof_slot_layout(),
                ProofSlotLayout::ReuseCurrentRandomSlot
            );
            assert_eq!(
                payload.hidden_payload(),
                PerfectHiddenOpeningPayload::EncodedCoordinates {
                    base_field_coordinate_evaluations: 2,
                    transport: HiddenOpeningTransport::InBandWithMainOpeningProof,
                }
            );
        }
        RandomizerOpeningPayload::Statistical(_) => panic!("expected perfect payload"),
    }
}

#[test]
fn native_extension_perfect_randomizer_needs_dedicated_slot_shape() {
    let shape = BatchOpeningShape::new(3, 2, 4).expect("valid shape");
    let spec = ShroudBatchOpeningSpec::perfect(
        shape,
        31,
        PerfectRandomizerCommitment::native_extension_pcs(),
        valid_native_perfect_claim(4),
    )
    .expect("valid spec");

    match spec.randomizer_opening_payload() {
        RandomizerOpeningPayload::Perfect(payload) => {
            assert_eq!(payload.public_extension_evaluations(), 2);
            assert_eq!(
                payload.proof_slot_layout(),
                ProofSlotLayout::DedicatedPerfectRandomizerSlot
            );
            assert_eq!(
                payload.hidden_payload(),
                PerfectHiddenOpeningPayload::BackendProofOnly {
                    transport: HiddenOpeningTransport::SeparateAuxiliaryProof,
                }
            );
        }
        RandomizerOpeningPayload::Statistical(_) => panic!("expected perfect payload"),
    }
}

#[test]
fn statistical_spec_can_override_the_default_degree_budget() {
    let shape = BatchOpeningShape::new(4, 1, 2).expect("valid shape");
    let budget = DegreeBudget::new(15, 15).expect("valid budget");
    let spec =
        ShroudBatchOpeningSpec::statistical_with_degree_budget(shape, budget).expect("valid spec");

    assert_eq!(spec.degree_budget(), budget);
}

#[test]
fn perfect_spec_can_override_the_default_degree_budget() {
    let shape = BatchOpeningShape::new(4, 1, 2).expect("valid shape");
    let budget = DegreeBudget::new(15, 14).expect("valid budget");
    let spec = ShroudBatchOpeningSpec::perfect_with_degree_budget(
        shape,
        budget,
        PerfectRandomizerCommitment::encoded_oracle_bundle(BasisDescriptor::plonky3_binomial(2)),
        encoded_perfect_claim(2),
    )
    .expect("valid spec");

    assert_eq!(spec.degree_budget(), budget);
}

#[test]
fn rejects_encoded_bundle_with_mismatched_extension_degree() {
    let shape = BatchOpeningShape::new(4, 1, 4).expect("valid shape");
    assert_eq!(
        ShroudBatchOpeningSpec::perfect(
            shape,
            15,
            PerfectRandomizerCommitment::encoded_oracle_bundle(BasisDescriptor::plonky3_binomial(
                2
            )),
            encoded_perfect_claim(4),
        ),
        Err(BatchOpeningSpecError::InconsistentEncodedBundleDegree {
            shape_degree: 4,
            basis_degree: 2,
        })
    );
}

#[test]
fn statistical_hidden_evals_equal_points_times_extension_degree() {
    for committed in [1usize, 7, 63] {
        for points in [1usize, 5, 15] {
            for ext in 1usize..8 {
                for relation in [1usize, 64, 127] {
                    let shape = BatchOpeningShape::new(committed, points, ext).expect("valid shape");
                    let spec = ShroudBatchOpeningSpec::statistical(shape, relation).expect("valid spec");
                    match spec.randomizer_opening_payload() {
                        RandomizerOpeningPayload::Statistical(payload) => {
                            assert_eq!(payload.hidden_base_field_coordinate_evaluations(), points * ext);
                            assert_eq!(payload.public_extension_evaluations(), points);
                        }
                        RandomizerOpeningPayload::Perfect(_) => panic!("expected statistical payload"),
                    }
                }
            }
        }
    }
}

#[test]
fn encoded_bundle_coordinate_evals_equal_points_times_extension_degree() {
    for points in [1usize, 3, 15] {
        for ext in 1usize..8 {
            let shape = BatchOpeningShape::new(5, points, ext).expect("valid shape");
            let commitment =
                PerfectRandomizerCommitment::encoded_oracle_bundle(BasisDescriptor::plonky3_binomial(ext));
            let spec = ShroudBatchOpeningSpec::perfect(shape, 40, commitment, encoded_perfect_claim(ext))
                .expect("valid spec");
            match spec.randomizer_opening_payload() {
                RandomizerOpeningPayload::Perfect(payload) => {
                    assert_eq!(payload.public_extension_evaluations(), points);
                    match payload.hidden_payload() {
                        PerfectHiddenOpeningPayload::EncodedCoordinates {
                            base_field_coordinate_evaluations,
                            ..
                        } => assert_eq!(base_field_coordinate_evaluations, points * ext),
                        PerfectHiddenOpeningPayload::BackendProofOnly { .. } => {
                            panic!("expected encoded coordinates")
                        }
                    }
                }
                RandomizerOpeningPayload::Statistical(_) => panic!("expected perfect payload"),
            }
        }
    }
}

#[test]
fn inconsistent_encoded_bundle_degree_always_rejected() {
    for shape_ext in 1usize..8 {
        for basis_ext in 1usize..8 {
            if shape_ext == basis_ext {
                continue;
            }
            let shape = BatchOpeningShape::new(4, 2, shape_ext).expect("valid shape");
            let commitment = PerfectRandomizerCommitment::encoded_oracle_bundle(
                BasisDescriptor::plonky3_binomial(basis_ext),
            );
            assert!(ShroudBatchOpeningSpec::perfect(
                shape,
                31,
                commitment,
                encoded_perfect_claim(basis_ext),
            )
            .is_err());
        }
    }
}

#[test]
fn batch_opening_shape_and_error_message() {
    assert!(BatchOpeningShape::new(0, 1, 1).is_err());
    assert!(BatchOpeningShape::new(1, 0, 1).is_err());
    assert!(BatchOpeningShape::new(1, 1, 0).is_err());
    let e = BatchOpeningSpecError::InconsistentEncodedBundleDegree {
        shape_degree: 4,
        basis_degree: 2,
    };
    let msg = e.message();
    assert!(msg.contains('4') && msg.contains('2'));
}

#[test]
fn codeword_embedding_plan_tracks_committed_columns_and_blowup() {
    let shape = CodewordEmbeddingShape::new(64, 4, 18, 4).expect("valid shape");
    let spec = ShroudCodewordEmbeddingSpec::statistical(shape).expect("valid spec");
    let payload = spec.payload();
    let plan = CodewordEmbeddingAdapterPlan::new(
        SecurityLevel::Statistical,
        "pcs_commitment",
        "trace_openings",
        "randomizer_openings",
        payload,
    );

    assert_eq!(plan.security_level(), SecurityLevel::Statistical);
    assert_eq!(plan.payload().committed_columns(), 68);
    assert_eq!(plan.payload().public_trace_columns(), 64);
    assert_eq!(plan.payload().hidden_randomizer_columns(), 4);
    assert_eq!(plan.payload().required_log_blowup(), 2);
    assert_eq!(plan.commitment_slot(), &"pcs_commitment");
    assert_eq!(plan.public_opening_slot(), &"trace_openings");
    assert_eq!(plan.hidden_auxiliary_slot(), &"randomizer_openings");
}

#[test]
fn plan_tracks_statistical_slot_layout_from_payload() {
    let shape = BatchOpeningShape::new(4, 2, 3).expect("valid shape");
    let spec = ShroudBatchOpeningSpec::statistical(shape, 15).expect("valid spec");
    let payload = spec.randomizer_opening_payload();
    let plan = BatchOpeningAdapterPlan::new(
        SecurityLevel::Statistical,
        CommitmentBoundary::SharedPcsHook,
        "random",
        payload,
        2,
    );

    assert_eq!(plan.proof_slot_layout(), ProofSlotLayout::ReuseCurrentRandomSlot);
    assert_eq!(plan.opening_payload(), payload);
    assert_eq!(plan.required_log_blowup(), 2);
}

#[test]
fn plan_accepts_all_blowup_values_at_least_two() {
    for blowup in 2usize..100 {
        let shape = BatchOpeningShape::new(4, 2, 3).expect("valid shape");
        let spec = ShroudBatchOpeningSpec::statistical(shape, 15).expect("valid spec");
        let plan = BatchOpeningAdapterPlan::new(
            SecurityLevel::Statistical,
            CommitmentBoundary::SharedPcsHook,
            "slot",
            spec.randomizer_opening_payload(),
            blowup,
        );
        assert_eq!(plan.required_log_blowup(), blowup);
        assert_eq!(plan.commitment_boundary(), CommitmentBoundary::SharedPcsHook);
        assert_eq!(plan.commitment_slot(), &"slot");
    }
}

#[test]
fn helper_extracts_perfect_slot_layout_from_payload() {
    let shape = BatchOpeningShape::new(4, 1, 2).expect("valid shape");
    let spec = ShroudBatchOpeningSpec::perfect(
        shape,
        15,
        PerfectRandomizerCommitment::native_extension_pcs(),
        valid_native_perfect_claim(2),
    )
    .expect("valid spec");

    assert_eq!(
        proof_slot_layout(spec.randomizer_opening_payload()),
        ProofSlotLayout::DedicatedPerfectRandomizerSlot
    );
    assert!(matches!(
        spec.randomizer_opening_payload(),
        RandomizerOpeningPayload::Perfect(_)
    ));
}

#[test]
fn projection_plan_tracks_public_and_hidden_slots() {
    let shape = OpeningProjectionShape::new(3, 5, 2).expect("valid shape");
    let spec = ShroudOpeningProjectionSpec::statistical(
        shape,
        AuxiliaryOpeningTransport::InBandWithMainProof,
    )
    .expect("valid spec");
    let payload = spec.payload();
    let plan = OpeningProjectionAdapterPlan::new(
        SecurityLevel::Statistical,
        "opened_values",
        "fri_opening_proof",
        payload,
    );

    assert_eq!(plan.payload(), payload);
    assert_eq!(plan.public_opening_slot(), &"opened_values");
    assert_eq!(plan.hidden_auxiliary_slot(), &"fri_opening_proof");
}

#[test]
fn oracle_commitment_plan_tracks_commitment_opening_and_hidden_slots() {
    let shape = OracleCommitmentShape::new(2, 3, 4, 5, 1).expect("valid shape");
    let spec = ShroudOracleCommitmentSpec::statistical(
        shape,
        OracleAuxiliaryTransport::InBandWithOpeningProof,
    )
    .expect("valid spec");
    let payload = spec.payload();
    let plan = OracleCommitmentAdapterPlan::new(
        SecurityLevel::Statistical,
        "oracle_commitment",
        "mmcs_opening",
        "salt_witness",
        payload,
    );

    assert_eq!(plan.payload(), payload);
    assert_eq!(plan.commitment_slot(), &"oracle_commitment");
    assert_eq!(plan.public_opening_slot(), &"mmcs_opening");
    assert_eq!(plan.hidden_auxiliary_slot(), &"salt_witness");
}

#[test]
fn quotient_hider_plan_tracks_family_budget_and_slots() {
    let shape = QuotientHiderShape::new(3, 2, 4, 1, 2).expect("valid shape");
    let contract = QuotientDegreeContract::new(31, 31).expect("valid contract");
    let spec = ShroudQuotientHiderSpec::statistical(
        QuotientDecompositionFamily::DegreeChunked,
        8,
        shape,
        QuotientAuxiliaryTransport::InBandWithOpeningProof,
        Some(contract),
    )
    .expect("valid spec");
    let payload = spec.payload();
    let plan = QuotientHiderAdapterPlan::new(
        SecurityLevel::Statistical,
        QuotientDecompositionFamily::DegreeChunked,
        8,
        "quotient_commitment",
        "quotient_opening",
        "quotient_mask",
        payload,
    );

    assert_eq!(
        plan.decomposition_family(),
        QuotientDecompositionFamily::DegreeChunked
    );
    assert_eq!(plan.query_budget(), 8);
    assert_eq!(plan.payload(), payload);
    assert_eq!(plan.commitment_slot(), &"quotient_commitment");
    assert_eq!(plan.public_opening_slot(), &"quotient_opening");
    assert_eq!(plan.hidden_auxiliary_slot(), &"quotient_mask");
}

#[test]
fn perfect_claim_field_model_mismatch_message_names_both_sides() {
    let shape = BatchOpeningShape::new(4, 1, 2).expect("valid shape");
    let err = ShroudBatchOpeningSpec::perfect(
        shape,
        15,
        PerfectRandomizerCommitment::native_extension_pcs(),
        encoded_perfect_claim(2),
    )
    .unwrap_err();
    assert_eq!(
        err,
        BatchOpeningSpecError::PerfectClaimFieldModelMismatch {
            claim_field_model: FieldModel::EncodedCoordinates { extension_degree: 2 },
            realization: PerfectRandomizerRealization::NativeExtensionPcs,
        }
    );
    let message = err.message();
    assert!(message.contains("encoded oracle bundle"));
    assert!(message.contains("native extension PCS"));
}

#[test]
fn field_model_mismatch_is_reported_before_basis_degree_mismatch() {
    let shape = BatchOpeningShape::new(4, 1, 4).expect("valid shape");
    let commitment =
        PerfectRandomizerCommitment::encoded_oracle_bundle(BasisDescriptor::plonky3_binomial(2));
    assert_eq!(
        ShroudBatchOpeningSpec::perfect(shape, 15, commitment, valid_native_perfect_claim(4)),
        Err(BatchOpeningSpecError::PerfectClaimFieldModelMismatch {
            claim_field_model: FieldModel::NativeExtension { extension_degree: 4 },
            realization: commitment.realization(),
        })
    );
}
