use shroud::{
    AuxiliaryOpeningTransport, AuxiliaryTransport, CodewordEmbeddingError, CodewordEmbeddingShape,
    OpeningProjectionError, OpeningProjectionShape, SecurityLevel, ShroudCodewordEmbeddingSpec,
    ShroudOpeningProjectionSpec, TranscriptBindable, DOMAIN_OPENING_PROJECTION,
};

fn standard_shape() -> CodewordEmbeddingShape {
    CodewordEmbeddingShape::new(64, 4, 18, 4).expect("valid shape")
}

#[test]
fn statistical_default_satisfies_invariants() {
    let spec = ShroudCodewordEmbeddingSpec::statistical(standard_shape()).expect("valid spec");

    assert_eq!(spec.security_level(), SecurityLevel::Statistical);
    assert_eq!(spec.payload().committed_columns(), 68);
    assert_eq!(spec.payload().public_trace_columns(), 64);
    assert_eq!(spec.payload().hidden_randomizer_columns(), 4);
    assert_eq!(spec.payload().domain_log_size(), 18);
    assert_eq!(spec.payload().required_log_blowup(), 2);
    assert_eq!(spec.payload().auxiliary_transport(), AuxiliaryTransport::InBand);
}

#[test]
fn payload_committed_columns_is_trace_plus_randomizer() {
    let shape = CodewordEmbeddingShape::new(10, 4, 8, 4).expect("valid shape");
    let spec = ShroudCodewordEmbeddingSpec::statistical(shape).expect("valid spec");
    assert_eq!(
        spec.payload().committed_columns(),
        spec.shape().trace_columns() + spec.shape().randomizer_columns()
    );
}

#[test]
fn rejects_randomizer_columns_not_equal_to_extension_degree() {
    let shape = CodewordEmbeddingShape::new(16, 3, 8, 4).expect("valid shape");
    assert_eq!(
        ShroudCodewordEmbeddingSpec::statistical(shape),
        Err(CodewordEmbeddingError::StatisticalInvariantViolated {
            randomizer_columns: 3,
            extension_degree: 4,
        })
    );
}

#[test]
fn rejects_blowup_less_than_two() {
    let shape = standard_shape();
    assert_eq!(
        ShroudCodewordEmbeddingSpec::new(
            SecurityLevel::Statistical,
            shape,
            1,
            AuxiliaryTransport::InBand,
        ),
        Err(CodewordEmbeddingError::InsufficientBlowup {
            required_log_blowup: 1
        })
    );
}

#[test]
fn rejects_zero_trace_columns() {
    assert_eq!(
        CodewordEmbeddingShape::new(0, 4, 8, 4),
        Err(CodewordEmbeddingError::ZeroTraceColumns)
    );
}

#[test]
fn rejects_zero_randomizer_columns() {
    assert_eq!(
        CodewordEmbeddingShape::new(16, 0, 8, 4),
        Err(CodewordEmbeddingError::ZeroRandomizerColumns)
    );
}

#[test]
fn rejects_zero_domain_log_size() {
    assert_eq!(
        CodewordEmbeddingShape::new(16, 4, 0, 4),
        Err(CodewordEmbeddingError::ZeroDomainLogSize)
    );
}

#[test]
fn rejects_zero_extension_degree() {
    assert_eq!(
        CodewordEmbeddingShape::new(16, 4, 8, 0),
        Err(CodewordEmbeddingError::ZeroExtensionDegree)
    );
}

#[test]
fn explicit_separate_envelope_transport_is_recorded() {
    let shape = standard_shape();
    let spec = ShroudCodewordEmbeddingSpec::statistical_with_transport(
        shape,
        AuxiliaryTransport::SeparateEnvelope,
    )
    .expect("valid spec");
    assert_eq!(spec.auxiliary_transport(), AuxiliaryTransport::SeparateEnvelope);
}

#[test]
fn rejects_perfect_security_level_without_claim() {
    assert_eq!(
        ShroudCodewordEmbeddingSpec::new(
            SecurityLevel::Perfect,
            standard_shape(),
            2,
            AuxiliaryTransport::InBand,
        ),
        Err(CodewordEmbeddingError::PerfectRequiresClaim)
    );
}

#[test]
fn shape_committed_columns_accessor() {
    let shape = CodewordEmbeddingShape::new(10, 4, 8, 4).expect("valid shape");
    assert_eq!(shape.committed_columns(), 14);
}

#[test]
fn codeword_embedding_spec_validates_and_reports_errors() {
    let spec = ShroudCodewordEmbeddingSpec::statistical(standard_shape()).expect("valid spec");
    assert!(spec.validate().is_ok());
    assert_eq!(spec.shape().extension_degree(), 4);
    assert_eq!(spec.shape().domain_log_size(), 18);
    let msg = CodewordEmbeddingError::InsufficientBlowup { required_log_blowup: 1 }.message();
    assert!(msg.contains("required_log_blowup (1)"));
}

#[test]
fn statistical_projection_tracks_in_band_auxiliaries() {
    let shape = OpeningProjectionShape::new(4, 8, 3).expect("valid shape");
    let spec = ShroudOpeningProjectionSpec::statistical(
        shape,
        AuxiliaryOpeningTransport::InBandWithMainProof,
    )
    .expect("valid spec");

    assert_eq!(spec.security_level(), SecurityLevel::Statistical);
    assert_eq!(spec.payload().public_opening_values(), 4);
    assert_eq!(spec.payload().hidden_auxiliary_values(), 8);
    assert_eq!(
        spec.payload().auxiliary_transport(),
        AuxiliaryOpeningTransport::InBandWithMainProof
    );
}

#[test]
fn perfect_projection_can_require_separate_auxiliary_transport() {
    let shape = OpeningProjectionShape::new(2, 6, 2).expect("valid shape");
    let spec = ShroudOpeningProjectionSpec::perfect(
        shape,
        AuxiliaryOpeningTransport::SeparateAuxiliaryProof,
    )
    .expect("valid spec");

    assert_eq!(spec.security_level(), SecurityLevel::Perfect);
    assert_eq!(spec.payload().public_opening_values(), 2);
    assert_eq!(spec.payload().hidden_auxiliary_values(), 6);
    assert_eq!(spec.payload().verifier_reconstruction_items(), 2);
}

#[test]
fn security_level_does_not_by_itself_constrain_auxiliary_transport() {
    let shape = OpeningProjectionShape::new(2, 6, 2).expect("valid shape");
    let spec = ShroudOpeningProjectionSpec::perfect(
        shape,
        AuxiliaryOpeningTransport::InBandWithMainProof,
    )
    .expect("valid spec");

    assert_eq!(spec.security_level(), SecurityLevel::Perfect);
    assert_eq!(
        spec.auxiliary_transport(),
        AuxiliaryOpeningTransport::InBandWithMainProof
    );
}

#[test]
fn rejects_empty_hidden_auxiliary_surface() {
    assert_eq!(
        OpeningProjectionShape::new(2, 0, 1),
        Err(OpeningProjectionError::ZeroHiddenAuxiliaryValues)
    );
}

#[test]
fn projection_rejects_zero_public_and_reconstruction_counts() {
    assert_eq!(
        OpeningProjectionShape::new(0, 0, 0),
        Err(OpeningProjectionError::ZeroPublicOpeningValues)
    );
    assert_eq!(
        OpeningProjectionShape::new(1, 1, 0),
        Err(OpeningProjectionError::ZeroVerifierReconstructionItems)
    );
}

#[test]
fn projection_binding_is_fifty_bytes() {
    let shape = OpeningProjectionShape::new(2, 6, 2).expect("valid shape");
    let spec = ShroudOpeningProjectionSpec::perfect(
        shape,
        AuxiliaryOpeningTransport::SeparateAuxiliaryProof,
    )
    .expect("valid spec");
    let b = spec.to_transcript_binding();
    assert_eq!(b.domain_label(), DOMAIN_OPENING_PROJECTION);
    let mut expected = vec![1u8];
    for v in [2u64, 6, 2, 2, 6, 2] {
        expected.extend_from_slice(&v.to_le_bytes());
    }
    expected.push(1);
    assert_eq!(b.canonical_bytes(), &expected[..]);
}
