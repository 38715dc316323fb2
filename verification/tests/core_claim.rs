use shroud::{
    BackendClaim, ClaimScope, DegreeBudget, DegreeBudgetError, FieldModel, PerfectClaim,
    PerfectClaimError, RandomnessModel, SecurityLevel, SimulatorObligations, UpstreamCitation,
};

fn valid_claim() -> PerfectClaim {
    PerfectClaim {
        randomness_model: RandomnessModel::UniformPerProof,
        field_model: FieldModel::EncodedCoordinates {
            extension_degree: 4,
        },
        query_budget: 40,
        simulator_obligations: SimulatorObligations::HonestVerifierChallengeAccess,
        hiding_mmcs: true,
    }
}

#[test]
fn valid_claim_validates() {
    assert!(valid_claim().validate().is_ok());
}

#[test]
fn zero_query_budget_is_rejected() {
    let mut claim = valid_claim();
    claim.query_budget = 0;
    assert_eq!(claim.validate(), Err(PerfectClaimError::ZeroQueryBudget));
}

#[test]
fn non_hiding_mmcs_is_rejected() {
    let mut claim = valid_claim();
    claim.hiding_mmcs = false;
    assert_eq!(claim.validate(), Err(PerfectClaimError::NonHidingMmcs));
}

#[test]
fn field_model_extension_degree_accessor() {
    assert_eq!(
        FieldModel::EncodedCoordinates {
            extension_degree: 4
        }
        .extension_degree(),
        4
    );
    assert_eq!(
        FieldModel::NativeExtension {
            extension_degree: 2
        }
        .extension_degree(),
        2
    );
}

#[test]
fn native_extension_claim_validates() {
    let mut claim = valid_claim();
    claim.field_model = FieldModel::NativeExtension {
        extension_degree: 4,
    };
    assert!(claim.validate().is_ok());
}

#[test]
fn zero_budget_is_reported_before_non_hiding_mmcs() {
    let mut claim = valid_claim();
    claim.query_budget = 0;
    claim.hiding_mmcs = false;
    assert_eq!(claim.validate(), Err(PerfectClaimError::ZeroQueryBudget));
}

#[test]
fn perfect_claim_constructor_validates() {
    let ok = PerfectClaim::new(
        RandomnessModel::CsprngFromOsEntropy,
        FieldModel::NativeExtension { extension_degree: 2 },
        3,
        SimulatorObligations::FullyOblivious,
        true,
    );
    assert_eq!(ok.map(|c| c.query_budget), Ok(3));
    let err = PerfectClaim::new(
        RandomnessModel::UniformPerProof,
        FieldModel::EncodedCoordinates { extension_degree: 4 },
        5,
        SimulatorObligations::HonestVerifierChallengeAccess,
        false,
    );
    assert_eq!(err, Err(PerfectClaimError::NonHidingMmcs));
}

#[test]
fn perfect_claim_canonical_bytes_layout() {
    let bytes = valid_claim().to_canonical_bytes();
    let mut expected = vec![0u8, 0u8];
    expected.extend_from_slice(&4u64.to_le_bytes());
    expected.extend_from_slice(&40u64.to_le_bytes());
    expected.push(0);
    expected.push(1);
    assert_eq!(bytes, expected);
}

#[test]
fn claim_scope_discriminants_match_lean() {
    assert_eq!(ClaimScope::CoreBatchOpening.discriminant(), 0);
    assert_eq!(ClaimScope::Plonky3UniStarkPreGrind.discriminant(), 1);
    assert_eq!(ClaimScope::Plonky3FullFriReplay.discriminant(), 2);
    assert_eq!(ClaimScope::WhirHvzk.discriminant(), 3);
}

#[test]
fn upstream_citation_discriminants_match_lean() {
    assert_eq!(UpstreamCitation::BcsIop.discriminant(), 0);
    assert_eq!(UpstreamCitation::DeepFri.discriminant(), 1);
    assert_eq!(UpstreamCitation::ProximityGaps.discriminant(), 2);
    assert_eq!(UpstreamCitation::HvzkWhir.discriminant(), 3);
    assert_eq!(UpstreamCitation::HabockKindi.discriminant(), 4);
    assert_eq!(UpstreamCitation::Aurora.discriminant(), 5);
    assert_eq!(UpstreamCitation::Ligero.discriminant(), 6);
    assert_eq!(UpstreamCitation::RedShift.discriminant(), 7);
    assert_eq!(UpstreamCitation::SpongeIndifferentiability.discriminant(), 8);
    assert_eq!(UpstreamCitation::FiatShamirRom.discriminant(), 9);
    assert_eq!(UpstreamCitation::ChiesaOrruSpongeFs.discriminant(), 10);
}

#[test]
fn requires_full_live_matches_lean() {
    assert!(!ClaimScope::CoreBatchOpening.requires_full_live());
    assert!(!ClaimScope::Plonky3UniStarkPreGrind.requires_full_live());
    assert!(ClaimScope::Plonky3FullFriReplay.requires_full_live());
    assert!(ClaimScope::WhirHvzk.requires_full_live());
}

#[test]
fn backend_claim_construction_preserves_fields() {
    let claim = BackendClaim::new(
        SecurityLevel::Statistical,
        ClaimScope::Plonky3UniStarkPreGrind,
        vec![UpstreamCitation::BcsIop, UpstreamCitation::DeepFri],
    );
    assert_eq!(claim.security_level, SecurityLevel::Statistical);
    assert_eq!(claim.scope, ClaimScope::Plonky3UniStarkPreGrind);
    assert!(!claim.requires_full_live());
    assert_eq!(
        claim.citations,
        vec![UpstreamCitation::BcsIop, UpstreamCitation::DeepFri]
    );
}

#[test]
fn preserves_relation_degree_when_randomizer_is_one_degree_higher() {
    let budget = DegreeBudget::new(15, 16).expect("valid budget");
    assert!(budget.preserves_relation_degree());
    assert_eq!(budget.masked_relation_degree_bound(), 15);
}

#[test]
fn rejects_randomizer_that_grows_masked_relation_class() {
    let err = DegreeBudget::new(15, 17).expect_err("budget should be rejected");
    assert_eq!(
        err,
        DegreeBudgetError::RandomizerTooLarge {
            randomizer_degree: 17,
            max_allowed: 16,
        }
    );
}

#[test]
fn degree_budget_accessors_and_lower_randomizer() {
    let budget = DegreeBudget::new(10, 3).expect("valid budget");
    assert_eq!(budget.relation_degree(), 10);
    assert_eq!(budget.randomizer_degree(), 3);
    assert_eq!(budget.masked_relation_degree_bound(), 10);
    assert!(budget.preserves_relation_degree());
}

#[test]
fn degree_budget_error_message_names_degrees() {
    let err = DegreeBudget::new(15, 17).expect_err("rejected");
    let msg = err.message();
    assert!(msg.contains("17"));
    assert!(msg.contains("16"));
}

#[test]
fn claim_component_renderings() {
    assert_eq!(RandomnessModel::UniformPerProof.label(), "uniform per proof");
    assert_eq!(RandomnessModel::CsprngFromOsEntropy.label(), "CSPRNG from OS entropy");
    assert_eq!(
        FieldModel::EncodedCoordinates { extension_degree: 4 }.message(),
        "encoded coordinates (extension degree 4)"
    );
    assert_eq!(
        FieldModel::NativeExtension { extension_degree: 12 }.message(),
        "native extension field (degree 12)"
    );
    assert_eq!(
        SimulatorObligations::HonestVerifierChallengeAccess.label(),
        "honest-verifier with challenge access"
    );
    assert_eq!(SimulatorObligations::FullyOblivious.label(), "fully oblivious");
    assert_eq!(
        PerfectClaimError::ZeroQueryBudget.message(),
        "perfect claim query budget must be at least one"
    );
}
