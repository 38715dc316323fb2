//! SHROUD: structured hiding for Reed-Solomon oracles under decomposition.
//!
//! Protocol objects for the SHROUD batch-opening, opening-projection,
//! oracle-commitment, quotient-hider and codeword-embedding constructions,
//! their canonical transcript bindings, and the Plonky3 bridge checks.
#![allow(unused_imports)]

pub mod adapter;
pub mod batch_opening;
pub mod binding;
pub mod bytes;
pub mod challenger;
pub mod claim;
pub mod codeword_embedding;
pub mod conformance;
pub mod degree;
pub mod harness;
pub mod hiding;
pub mod live_extractor;
pub mod opening_projection;
pub mod oracle_commitment;
pub mod plonky3;
pub mod plonky3_bindings;
pub mod quotient_hider;
pub mod recorder;
pub mod security;
pub mod surface;
pub mod text;
pub mod transcript;

pub use binding::{
    HashIdentifier, StandardBatchOpeningBindings, TranscriptBindable, TranscriptBinding, TranscriptBindingError,
    TranscriptBindingManifest, DOMAIN_BASIS, DOMAIN_BATCH_OPENING, DOMAIN_CODEWORD_EMBEDDING,
    DOMAIN_DEGREE_BUDGET, DOMAIN_DEGREE_CONTRACT, DOMAIN_HASH_ID, DOMAIN_HIDING_TECHNIQUE,
    DOMAIN_OPENING_PROJECTION, DOMAIN_ORACLE_COMMITMENT, DOMAIN_PERFECT_CLAIM, DOMAIN_PROFILE,
    DOMAIN_PUBLIC_OPENINGS, DOMAIN_QUOTIENT_HIDER, DOMAIN_RANDOMIZER_COMMITMENT,
    DOMAIN_SAMPLED_CHALLENGE, DOMAIN_SECURITY_LEVEL,
};
pub use claim::{
    BasisDescriptor, CoordinateOrder, FieldModel, PerfectClaim, PerfectClaimError,
    RandomnessModel, ReconstructionRule, SimulatorObligations,
};
pub use degree::{DegreeBudget, DegreeBudgetError};
pub use security::SecurityLevel;
pub use transcript::{TranscriptPlan, TranscriptPlanError, TranscriptStage};
pub use conformance::{BackendClaim, BackendClaimSurface, ClaimScope, UpstreamCitation};
pub use hiding::HidingTechniqueClaim;
pub use surface::{AuxiliaryTransport, HiddenAuxiliarySurface, PublicSurface, QueryBudget};
pub use quotient_hider::{
    QuotientAuxiliaryTransport, QuotientDecompositionFamily, QuotientDegreeContract,
    QuotientHiderError, QuotientHiderPayload, QuotientHiderShape, ShroudQuotientHiderSpec,
};
pub use codeword_embedding::{
    CodewordEmbeddingError, CodewordEmbeddingPayload, CodewordEmbeddingShape,
    ShroudCodewordEmbeddingSpec,
};
pub use opening_projection::{
    AuxiliaryOpeningTransport, OpeningProjectionError, OpeningProjectionPayload,
    OpeningProjectionShape, ShroudOpeningProjectionSpec,
};
pub use oracle_commitment::{
    OracleAuxiliaryTransport, OracleCommitmentError, OracleCommitmentPayload,
    OracleCommitmentShape, ShroudOracleCommitmentSpec,
};
pub use batch_opening::{
    BatchOpeningShape, BatchOpeningSpecError, CommitmentBoundary, HiddenOpeningTransport,
    PerfectHiddenOpeningPayload, PerfectRandomizerAdapter, PerfectRandomizerAdapterSurface,
    PerfectRandomizerBackend, PerfectRandomizerCommitment, PerfectRandomizerOpening,
    PerfectRandomizerOpeningPayload, PerfectRandomizerReconstruction, PerfectRandomizerRealization,
    PerfectRandomizerTranscript, PreparedPerfectRandomizer, ProofSlotLayout, RandomizerOpeningPayload,
    RandomizerSpec, ShroudBatchOpeningSpec, StatisticalRandomizerOpeningPayload,
    StatisticalRandomizerSpec,
};
pub use adapter::{
    proof_slot_layout, BatchOpeningAdapter, BatchOpeningAdapterPlan, CodewordEmbeddingAdapter,
    CodewordEmbeddingAdapterPlan, CodewordEmbeddingAdapterResult, OpeningProjectionAdapter,
    OpeningProjectionAdapterPlan, OracleCommitmentAdapter, OracleCommitmentAdapterPlan,
    OracleCommitmentAdapterResult, QuotientHiderAdapter, QuotientHiderAdapterPlan,
    QuotientHiderAdapterResult,
};
pub use recorder::{
    longest_byte_equivalent_prefix, verify_byte_equivalence, ByteRecorder, ByteTranscriptEvent,
    RecorderSnapshot, ReplayMismatch,
};
pub use recorder::{new_pinned_recording_byte_challenger, RecordingByteChallenger};
pub use plonky3::{
    check_advisory, check_profile_drift, required_plonky3_hiding_techniques,
    verify_profile_matches_backend, verify_provenance, pinned_p3_symmetric_provenance,
    pinned_p3_symmetric_version, BackendDriftError, P3SymmetricProvenance, P3SymmetricVersion,
    Plonky3HashIdentifier, ReferenceHidingFriPcsProfile, BACKEND_EXTENSION_DEGREE,
    BACKEND_LOG_BLOWUP, BACKEND_NUM_QUERIES, BACKEND_NUM_RANDOMIZER_COLS, BACKEND_QUERY_POW_BITS,
    KNOWN_PATCHED_P3_SYMMETRIC_SOURCES,
};
pub use plonky3_bindings::{
    Plonky3UniStarkBindings, DOMAIN_PLONKY3_AIR_PUBLIC_VALUES,
    DOMAIN_PLONKY3_FRI_COMMIT_PHASE_COMMITMENTS, DOMAIN_PLONKY3_FRI_FINAL_POLY,
    DOMAIN_PLONKY3_FRI_LOG_ARITIES, DOMAIN_PLONKY3_LOG_DEGREE, DOMAIN_PLONKY3_LOG_EXT_DEGREE,
    DOMAIN_PLONKY3_OPENED_VALUES, DOMAIN_PLONKY3_PREPROCESSED_COMMITMENT,
    DOMAIN_PLONKY3_PREPROCESSED_WIDTH, DOMAIN_PLONKY3_QUOTIENT_COMMITMENT,
    DOMAIN_PLONKY3_TRACE_COMMITMENT,
};
pub use live_extractor::{
    extract_pre_grind_slices, LiveExtractionError, LiveExtractorShape, LivePreGrindExtraction,
};
pub use harness::{
    extract_clean_pre_grind_prefix, pre_grind_bindings, pre_grind_manifest, verify_pre_grind_bridge,
    HarnessError, Plonky3ReplayHarness, PreGrindBridgeError,
};
