//! The first concrete SHROUD protocol object: batch-opening hiding.
//!
//! `SecurityLevel::Perfect` means the instantiation targets a perfect hiding /
//! honest-verifier zero-knowledge claim at the protocol level. That does not
//! imply a native extension-field PCS: the `EncodedOracleBundle` realization
//! remains a valid perfect-variant target as long as the backend proves that
//! the encoding is exact.
use vstd::prelude::*;
use crate::claim::{BasisDescriptor, FieldModel, PerfectClaim};
use crate::degree::{DegreeBudget, DegreeBudgetError, sat_add, sat_mul, saturating_mul_usize};
use crate::security::SecurityLevel;
use crate::text::{decimal, push_decimal};
use crate::transcript::{
    TranscriptPlan, TranscriptPlanError, canonical_stages, plan_outcome_matches,
};

verus! {

/// Error raised when a batch-opening spec violates a SHROUD invariant.
#[derive(Clone, Debug, PartialEq, Eq)]
pub enum BatchOpeningSpecError {
    /// A batch-opening relation must include at least one committed polynomial.
    ZeroCommittedPolynomials,
    /// A batch-opening relation must open at least one point.
    ZeroOpeningPoints,
    /// The extension field degree must be positive.
    ZeroExtensionDegree,
    /// The randomizer degree breaks the masked-relation degree class.
    DegreeBudget(DegreeBudgetError),
    /// The transcript order breaks a SHROUD invariant.
    Transcript(TranscriptPlanError),
    /// The perfect variant must use a dedicated auxiliary commitment boundary.
    PerfectVariantNeedsDedicatedAuxiliaryBoundary,
    /// For `EncodedOracleBundle`, the basis extension degree must match the shape.
    InconsistentEncodedBundleDegree {
        /// Extension degree declared in `BatchOpeningShape`.
        shape_degree: usize,
        /// Extension degree declared in `BasisDescriptor`.
        basis_degree: usize,
    },
    /// The perfect claim's field model does not describe the commitment's realization.
    PerfectClaimFieldModelMismatch {
        /// Field model declared by the `PerfectClaim`.
        claim_field_model: FieldModel,
        /// Realization of the perfect randomizer commitment.
        realization: PerfectRandomizerRealization,
    },
}

/// Statement shape for a reduced batch-opening relation. Every count is non-zero.
#[derive(Clone, Copy, Debug, PartialEq, Eq, Structural)]
pub struct BatchOpeningShape {
    committed_polynomials: usize,
    opening_points: usize,
    extension_degree: usize,
}

/// The verdict on a proposed shape: the first zero count, in parameter
/// order, is rejected.
pub open spec fn batch_shape_verdict(
    committed_polynomials: usize,
    opening_points: usize,
    extension_degree: usize,
) -> Result<(), BatchOpeningSpecError> {
    if committed_polynomials == 0 {
        Err(BatchOpeningSpecError::ZeroCommittedPolynomials)
    } else if opening_points == 0 {
        Err(BatchOpeningSpecError::ZeroOpeningPoints)
    } else if extension_degree == 0 {
        Err(BatchOpeningSpecError::ZeroExtensionDegree)
    } else {
        Ok(())
    }
}

impl BatchOpeningShape {
    /// Committed polynomials.
    pub closed spec fn spec_committed_polynomials(self) -> usize {
        self.committed_polynomials
    }

    /// Opening points.
    pub closed spec fn spec_opening_points(self) -> usize {
        self.opening_points
    }

    /// Extension degree.
    pub closed spec fn spec_extension_degree(self) -> usize {
        self.extension_degree
    }

    /// Creates a validated batch-opening shape.
    pub fn new(committed_polynomials: usize, opening_points: usize, extension_degree: usize) -> (r: Result<Self, BatchOpeningSpecError>)
        ensures
            ({
                let verdict = batch_shape_verdict(committed_polynomials, opening_points, extension_degree);
                &&& r is Ok <==> verdict is Ok
                &&& r matches Err(e) ==> verdict == Err::<(), BatchOpeningSpecError>(e)
                &&& r matches Ok(s) ==> {
                    &&& s.spec_committed_polynomials() == committed_polynomials
                    &&& s.spec_opening_points() == opening_points
                    &&& s.spec_extension_degree() == extension_degree
                }
            }),
    {
        if committed_polynomials == 0 {
            return Err(BatchOpeningSpecError::ZeroCommittedPolynomials);
        }
        if opening_points == 0 {
            return Err(BatchOpeningSpecError::ZeroOpeningPoints);
        }
        if extension_degree == 0 {
            return Err(BatchOpeningSpecError::ZeroExtensionDegree);
        }
        Ok(BatchOpeningShape { committed_polynomials, opening_points, extension_degree })
    }

    /// Number of committed polynomials participating in the reduced relation.
    pub fn committed_polynomials(self) -> (r: usize)
        ensures
            r == self.spec_committed_polynomials(),
    {
        self.committed_polynomials
    }

    /// Number of opened points in the batched claim.
    pub fn opening_points(self) -> (r: usize)
        ensures
            r == self.spec_opening_points(),
    {
        self.opening_points
    }

    /// Extension degree of the opening field over the base field.
    pub fn extension_degree(self) -> (r: usize)
        ensures
            r == self.spec_extension_degree(),
    {
        self.extension_degree
    }

    /// Number of public randomizer evaluations exposed by the claim surface:
    /// one public evaluation per opening point.
    pub fn public_randomizer_evaluations(self) -> (r: usize)
        ensures
            r == self.spec_opening_points(),
    {
        self.opening_points
    }
}

/// Architectural boundary used to realize the batch-opening randomizer.
#[derive(Clone, Copy, Debug, PartialEq, Eq, Structural)]
pub enum CommitmentBoundary {
    /// The randomizer is carried through the main PCS hook path.
    SharedPcsHook,
    /// The randomizer is modeled as its own auxiliary commitment object.
    DedicatedAuxiliaryPath,
}

/// How the batch-opening randomizer is represented in the proof surface.
#[derive(Clone, Copy, Debug, PartialEq, Eq, Structural)]
pub enum ProofSlotLayout {
    /// Reuse the current optional `random: Option<...>` commitment/proof-slot shape.
    ReuseCurrentRandomSlot,
    /// Give the perfect randomizer its own dedicated proof slot.
    DedicatedPerfectRandomizerSlot,
}

/// How hidden randomizer openings are transported inside the proof.
#[derive(Clone, Copy, Debug, PartialEq, Eq, Structural)]
pub enum HiddenOpeningTransport {
    /// Hidden openings stay in-band with the main batch-opening proof object.
    InBandWithMainOpeningProof,
    /// Hidden openings are carried by a separate auxiliary proof object.
    SeparateAuxiliaryProof,
}

/// Statistical randomizer model for the Plonky3-style surrogate path.
#[derive(Clone, Copy, Debug, PartialEq, Eq, Structural)]
pub struct StatisticalRandomizerSpec {
    coordinate_polynomials: usize,
}

/// Opening payload for the statistical randomizer.
#[derive(Clone, Copy, Debug, PartialEq, Eq, Structural)]
pub struct StatisticalRandomizerOpeningPayload {
    public_extension_evaluations: usize,
    hidden_base_field_coordinate_evaluations: usize,
    proof_slot_layout: ProofSlotLayout,
    hidden_opening_transport: HiddenOpeningTransport,
}

impl StatisticalRandomizerSpec {
    /// Base-field coordinate polynomials.
    pub closed spec fn spec_coordinate_polynomials(self) -> usize {
        self.coordinate_polynomials
    }

    /// Builds the statistical randomizer model from the extension degree.
    pub fn from_shape(shape: BatchOpeningShape) -> (r: Self)
        ensures
            r.spec_coordinate_polynomials() == shape.spec_extension_degree(),
    {
        StatisticalRandomizerSpec { coordinate_polynomials: shape.extension_degree() }
    }

    /// Number of base-field coordinate polynomials used in the surrogate randomizer.
    pub fn coordinate_polynomials(self) -> (r: usize)
        ensures
            r == self.spec_coordinate_polynomials(),
    {
        self.coordinate_polynomials
    }

    /// Returns the opening payload shape for the statistical randomizer: one
    /// public extension evaluation per point, `points * coordinates` hidden
    /// coordinate evaluations (saturating), in the reused random slot and
    /// in-band with the main opening proof.
    pub fn opening_payload(self, shape: BatchOpeningShape) -> (p: StatisticalRandomizerOpeningPayload)
        ensures
            statistical_payload_for(p, self, shape),
    {
        StatisticalRandomizerOpeningPayload {
            public_extension_evaluations: shape.opening_points(),
            hidden_base_field_coordinate_evaluations: saturating_mul_usize(
                shape.opening_points(),
                self.coordinate_polynomials,
            ),
            proof_slot_layout: ProofSlotLayout::ReuseCurrentRandomSlot,
            hidden_opening_transport: HiddenOpeningTransport::InBandWithMainOpeningProof,
        }
    }
}

/// `p` is the statistical randomizer's payload for `shape`: one public
/// extension evaluation per point, `points * coordinates` hidden coordinate
/// evaluations (saturating), in the reused random slot and in-band with the
/// main opening proof.
pub open spec fn statistical_payload_for(
    p: StatisticalRandomizerOpeningPayload,
    model: StatisticalRandomizerSpec,
    shape: BatchOpeningShape,
) -> bool {
    &&& p.spec_public_extension_evaluations() == shape.spec_opening_points()
    &&& p.spec_hidden_base_field_coordinate_evaluations() == sat_mul(
        shape.spec_opening_points(),
        model.spec_coordinate_polynomials(),
    )
    &&& p.spec_proof_slot_layout() == ProofSlotLayout::ReuseCurrentRandomSlot
    &&& p.spec_hidden_opening_transport() == HiddenOpeningTransport::InBandWithMainOpeningProof
}

impl StatisticalRandomizerOpeningPayload {
    /// Public extension evaluations.
    pub closed spec fn spec_public_extension_evaluations(self) -> usize {
        self.public_extension_evaluations
    }

    /// Hidden coordinate evaluations.
    pub closed spec fn spec_hidden_base_field_coordinate_evaluations(self) -> usize {
        self.hidden_base_field_coordinate_evaluations
    }

    /// Proof-slot layout.
    pub closed spec fn spec_proof_slot_layout(self) -> ProofSlotLayout {
        self.proof_slot_layout
    }

    /// Hidden-opening transport.
    pub closed spec fn spec_hidden_opening_transport(self) -> HiddenOpeningTransport {
        self.hidden_opening_transport
    }

    /// Number of public extension-field evaluations exposed by the claim surface.
    pub fn public_extension_evaluations(self) -> (r: usize)
        ensures
            r == self.spec_public_extension_evaluations(),
    {
        self.public_extension_evaluations
    }

    /// Number of hidden base-field coordinate evaluations carried in the proof.
    pub fn hidden_base_field_coordinate_evaluations(self) -> (r: usize)
        ensures
            r == self.spec_hidden_base_field_coordinate_evaluations(),
    {
        self.hidden_base_field_coordinate_evaluations
    }

    /// How the statistical randomizer fits into the proof surface.
    pub fn proof_slot_layout(self) -> (r: ProofSlotLayout)
        ensures
            r == self.spec_proof_slot_layout(),
    {
        self.proof_slot_layout
    }

    /// How the hidden coordinate openings are transported.
    pub fn hidden_opening_transport(self) -> (r: HiddenOpeningTransport)
        ensures
            r == self.spec_hidden_opening_transport(),
    {
        self.hidden_opening_transport
    }
}

/// Realization strategy for the perfect randomizer commitment.
#[derive(Clone, Copy, Debug, PartialEq, Eq, Structural)]
pub enum PerfectRandomizerRealization {
    /// A bundled coordinate encoding interpreted as one exact extension-field
    /// object; the basis makes the encoding self-describing.
    EncodedOracleBundle {
        /// Self-describing basis for flattening and reconstructing the randomizer.
        basis: BasisDescriptor,
    },
    /// A native extension-field PCS or equivalent extension-aware backend.
    NativeExtensionPcs,
}

/// Hidden opening payload for the perfect randomizer.
#[derive(Clone, Copy, Debug, PartialEq, Eq, Structural)]
pub enum PerfectHiddenOpeningPayload {
    /// The perfect randomizer is represented by an exact coordinate encoding.
    EncodedCoordinates {
        /// Number of hidden base-field coordinate evaluations carried in the proof.
        base_field_coordinate_evaluations: usize,
        /// How the hidden coordinate openings move through the proof.
        transport: HiddenOpeningTransport,
    },
    /// The backend carries the hidden witness internally without exposing
    /// extra randomizer coordinates.
    BackendProofOnly {
        /// How the hidden witness moves through the proof.
        transport: HiddenOpeningTransport,
    },
}

/// Opening payload for the perfect randomizer.
#[derive(Clone, Copy, Debug, PartialEq, Eq, Structural)]
pub struct PerfectRandomizerOpeningPayload {
    public_extension_evaluations: usize,
    hidden_payload: PerfectHiddenOpeningPayload,
    proof_slot_layout: ProofSlotLayout,
}

impl PerfectRandomizerOpeningPayload {
    /// Public extension evaluations.
    pub closed spec fn spec_public_extension_evaluations(self) -> usize {
        self.public_extension_evaluations
    }

    /// Hidden payload.
    pub closed spec fn spec_hidden_payload(self) -> PerfectHiddenOpeningPayload {
        self.hidden_payload
    }

    /// Proof-slot layout.
    pub closed spec fn spec_proof_slot_layout(self) -> ProofSlotLayout {
        self.proof_slot_layout
    }

    /// Number of public extension-field evaluations exposed by the claim surface.
    pub fn public_extension_evaluations(self) -> (r: usize)
        ensures
            r == self.spec_public_extension_evaluations(),
    {
        self.public_extension_evaluations
    }

    /// Hidden opening payload carried in the proof.
    pub fn hidden_payload(self) -> (r: PerfectHiddenOpeningPayload)
        ensures
            r == self.spec_hidden_payload(),
    {
        self.hidden_payload
    }

    /// How the perfect randomizer fits into the proof surface.
    pub fn proof_slot_layout(self) -> (r: ProofSlotLayout)
        ensures
            r == self.spec_proof_slot_layout(),
    {
        self.proof_slot_layout
    }
}

/// Opening payload for a batch-opening randomizer.
#[derive(Clone, Copy, Debug, PartialEq, Eq, Structural)]
pub enum RandomizerOpeningPayload {
    /// Opening payload for the statistical surrogate path.
    Statistical(StatisticalRandomizerOpeningPayload),
    /// Opening payload for the perfect variant.
    Perfect(PerfectRandomizerOpeningPayload),
}

/// Protocol boundary for the perfect batch-opening randomizer.
#[derive(Clone, Copy, Debug, PartialEq, Eq, Structural)]
pub struct PerfectRandomizerCommitment {
    realization: PerfectRandomizerRealization,
    proof_slot_layout: ProofSlotLayout,
}

impl PerfectRandomizerCommitment {
    /// Realization.
    pub closed spec fn spec_realization(self) -> PerfectRandomizerRealization {
        self.realization
    }

    /// Proof-slot layout.
    pub closed spec fn spec_proof_slot_layout(self) -> ProofSlotLayout {
        self.proof_slot_layout
    }

    /// The encoded-bundle commitment for a basis, as a spec value.
    pub closed spec fn encoded_spec(basis: BasisDescriptor) -> Self {
        PerfectRandomizerCommitment {
            realization: PerfectRandomizerRealization::EncodedOracleBundle { basis },
            proof_slot_layout: ProofSlotLayout::ReuseCurrentRandomSlot,
        }
    }

    /// The native-PCS commitment, as a spec value.
    pub closed spec fn native_spec() -> Self {
        PerfectRandomizerCommitment {
            realization: PerfectRandomizerRealization::NativeExtensionPcs,
            proof_slot_layout: ProofSlotLayout::DedicatedPerfectRandomizerSlot,
        }
    }

    /// Preferred SHROUD v1 realization: exact encoding into the existing
    /// oracle backend, reusing the current random slot.
    pub fn encoded_oracle_bundle(basis: BasisDescriptor) -> (c: Self)
        ensures
            c == Self::encoded_spec(basis),
            c.spec_realization() == (PerfectRandomizerRealization::EncodedOracleBundle { basis }),
            c.spec_proof_slot_layout() == ProofSlotLayout::ReuseCurrentRandomSlot,
    {
        PerfectRandomizerCommitment {
            realization: PerfectRandomizerRealization::EncodedOracleBundle { basis },
            proof_slot_layout: ProofSlotLayout::ReuseCurrentRandomSlot,
        }
    }

    /// Long-term realization: native extension-field commitment support, in
    /// a dedicated slot.
    pub fn native_extension_pcs() -> (c: Self)
        ensures
            c == Self::native_spec(),
            c.spec_realization() == PerfectRandomizerRealization::NativeExtensionPcs,
            c.spec_proof_slot_layout() == ProofSlotLayout::DedicatedPerfectRandomizerSlot,
    {
        PerfectRandomizerCommitment {
            realization: PerfectRandomizerRealization::NativeExtensionPcs,
            proof_slot_layout: ProofSlotLayout::DedicatedPerfectRandomizerSlot,
        }
    }

    /// Returns the chosen perfect-randomizer realization.
    pub fn realization(self) -> (r: PerfectRandomizerRealization)
        ensures
            r == self.spec_realization(),
    {
        self.realization
    }

    /// Returns the proof-slot decision for this perfect randomizer.
    pub fn proof_slot_layout(self) -> (r: ProofSlotLayout)
        ensures
            r == self.spec_proof_slot_layout(),
    {
        self.proof_slot_layout
    }

    /// Returns the exact opening payload shape for this perfect randomizer:
    /// one public evaluation per point; an encoded bundle carries `points *
    /// basis degree` hidden coordinate evaluations (saturating) in-band, a
    /// native PCS carries its witness in a separate auxiliary proof.
    pub fn opening_payload(self, shape: BatchOpeningShape) -> (p: PerfectRandomizerOpeningPayload)
        ensures
            perfect_payload_for(p, self, shape),
    {
        match self.realization {
            PerfectRandomizerRealization::EncodedOracleBundle { basis } => {
                PerfectRandomizerOpeningPayload {
                    public_extension_evaluations: shape.opening_points(),
                    hidden_payload: PerfectHiddenOpeningPayload::EncodedCoordinates {
                        base_field_coordinate_evaluations: saturating_mul_usize(
                            shape.opening_points(),
                            basis.extension_degree,
                        ),
                        transport: HiddenOpeningTransport::InBandWithMainOpeningProof,
                    },
                    proof_slot_layout: self.proof_slot_layout,
                }
            },
            PerfectRandomizerRealization::NativeExtensionPcs => PerfectRandomizerOpeningPayload {
                public_extension_evaluations: shape.opening_points(),
                hidden_payload: PerfectHiddenOpeningPayload::BackendProofOnly {
                    transport: HiddenOpeningTransport::SeparateAuxiliaryProof,
                },
                proof_slot_layout: self.proof_slot_layout,
            },
        }
    }
}

/// `p` is the perfect randomizer's payload for `shape`: one public
/// evaluation per point and the commitment's slot; an encoded bundle carries
/// `points * basis degree` hidden coordinate evaluations (saturating)
/// in-band, a native PCS carries its witness in a separate auxiliary proof.
pub open spec fn perfect_payload_for(
    p: PerfectRandomizerOpeningPayload,
    commitment: PerfectRandomizerCommitment,
    shape: BatchOpeningShape,
) -> bool {
    &&& p.spec_public_extension_evaluations() == shape.spec_opening_points()
    &&& p.spec_proof_slot_layout() == commitment.spec_proof_slot_layout()
    &&& p.spec_hidden_payload() == match commitment.spec_realization() {
        PerfectRandomizerRealization::EncodedOracleBundle { basis } =>
            PerfectHiddenOpeningPayload::EncodedCoordinates {
            base_field_coordinate_evaluations: sat_mul(
                shape.spec_opening_points(),
                basis.extension_degree,
            ),
            transport: HiddenOpeningTransport::InBandWithMainOpeningProof,
        },
        PerfectRandomizerRealization::NativeExtensionPcs =>
            PerfectHiddenOpeningPayload::BackendProofOnly {
            transport: HiddenOpeningTransport::SeparateAuxiliaryProof,
        },
    }
}

/// `payload` is the opening payload `randomizer` carries for `shape`.
pub open spec fn randomizer_payload_for(
    payload: RandomizerOpeningPayload,
    randomizer: RandomizerSpec,
    shape: BatchOpeningShape,
) -> bool {
    match (payload, randomizer) {
        (RandomizerOpeningPayload::Statistical(p), RandomizerSpec::Statistical(model)) =>
            statistical_payload_for(p, model, shape),
        (RandomizerOpeningPayload::Perfect(p), RandomizerSpec::Perfect(commitment)) =>
            perfect_payload_for(p, commitment, shape),
        _ => false,
    }
}

/// Randomizer model used by a `ShroudBatchOpeningSpec`.
#[derive(Clone, Copy, Debug, PartialEq, Eq, Structural)]
pub enum RandomizerSpec {
    /// Statistical base-field coordinate randomizer.
    Statistical(StatisticalRandomizerSpec),
    /// Perfect randomizer with an explicit commitment boundary.
    Perfect(PerfectRandomizerCommitment),
}

/// Prover-side result of committing to a perfect batch-opening randomizer.
#[derive(Clone, Debug, PartialEq, Eq)]
pub struct PreparedPerfectRandomizer<Commitment, ProverState> {
    commitment: Commitment,
    prover_state: ProverState,
}

impl<Commitment, ProverState> PreparedPerfectRandomizer<Commitment, ProverState> {
    /// The commitment.
    pub closed spec fn spec_commitment(&self) -> Commitment {
        self.commitment
    }

    /// The prover state.
    pub closed spec fn spec_prover_state(&self) -> ProverState {
        self.prover_state
    }

    /// Builds a prepared perfect randomizer object.
    pub fn new(commitment: Commitment, prover_state: ProverState) -> (r: Self)
        ensures
            r.spec_commitment() == commitment,
            r.spec_prover_state() == prover_state,
    {
        PreparedPerfectRandomizer { commitment, prover_state }
    }

    /// Returns the public commitment observed by the transcript.
    pub fn commitment(&self) -> (r: &Commitment)
        ensures
            *r == self.spec_commitment(),
    {
        &self.commitment
    }

    /// Returns the prover-side state required to open the perfect randomizer later.
    pub fn prover_state(&self) -> (r: &ProverState)
        ensures
            *r == self.spec_prover_state(),
    {
        &self.prover_state
    }
}

/// Opening object for a perfect batch-opening randomizer.
#[derive(Clone, Debug, PartialEq, Eq)]
pub struct PerfectRandomizerOpening<PublicEvaluation, HiddenOpening> {
    public_evaluations: Vec<PublicEvaluation>,
    hidden_openings: HiddenOpening,
}

impl<PublicEvaluation, HiddenOpening> PerfectRandomizerOpening<PublicEvaluation, HiddenOpening> {
    /// The public evaluations.
    pub closed spec fn spec_public_evaluations(&self) -> Seq<PublicEvaluation> {
        self.public_evaluations@
    }

    /// The hidden opening material.
    pub closed spec fn spec_hidden_openings(&self) -> HiddenOpening {
        self.hidden_openings
    }

    /// Builds a perfect-randomizer opening object.
    pub fn new(public_evaluations: Vec<PublicEvaluation>, hidden_openings: HiddenOpening) -> (r: Self)
        ensures
            r.spec_public_evaluations() == public_evaluations@,
            r.spec_hidden_openings() == hidden_openings,
    {
        PerfectRandomizerOpening { public_evaluations, hidden_openings }
    }

    /// Public extension-field evaluations revealed by the claim surface.
    pub fn public_evaluations(&self) -> (r: &[PublicEvaluation])
        ensures
            r@ == self.spec_public_evaluations(),
    {
        self.public_evaluations.as_slice()
    }

    /// Hidden opening material carried by the proof.
    pub fn hidden_openings(&self) -> (r: &HiddenOpening)
        ensures
            *r == self.spec_hidden_openings(),
    {
        &self.hidden_openings
    }
}

/// Reconstructed perfect-randomizer view used by the verifier.
#[derive(Clone, Copy, Debug, PartialEq, Eq, Structural)]
pub struct PerfectRandomizerReconstruction {
    commitment: PerfectRandomizerCommitment,
    opening_payload: PerfectRandomizerOpeningPayload,
}

impl PerfectRandomizerReconstruction {
    /// Commitment model.
    pub closed spec fn spec_commitment(self) -> PerfectRandomizerCommitment {
        self.commitment
    }

    /// Opening payload.
    pub closed spec fn spec_opening_payload(self) -> PerfectRandomizerOpeningPayload {
        self.opening_payload
    }

    /// Builds a reconstructed verifier view of the perfect randomizer.
    pub fn new(commitment: PerfectRandomizerCommitment, opening_payload: PerfectRandomizerOpeningPayload) -> (r: Self)
        ensures
            r.spec_commitment() == commitment,
            r.spec_opening_payload() == opening_payload,
    {
        PerfectRandomizerReconstruction { commitment, opening_payload }
    }

    /// Returns the commitment model used by the perfect randomizer.
    pub fn commitment(self) -> (r: PerfectRandomizerCommitment)
        ensures
            r == self.spec_commitment(),
    {
        self.commitment
    }

    /// Returns the opening payload reconstructed by the verifier.
    pub fn opening_payload(self) -> (r: PerfectRandomizerOpeningPayload)
        ensures
            r == self.spec_opening_payload(),
    {
        self.opening_payload
    }
}

/// Transcript interface for observing a perfect-randomizer commitment.
pub trait PerfectRandomizerTranscript {
    /// Error returned when the transcript cannot observe the commitment.
    type Error;

    /// The transcript went from `before` to `after` by observing
    /// `commitment`, with outcome `r`.
    spec fn observes<Commitment>(before: &Self, after: &Self, commitment: &Commitment, r: Result<(), Self::Error>) -> bool;

    /// Observe the perfect-randomizer commitment at the current transcript stage.
    fn observe_perfect_randomizer_commitment<Commitment>(&mut self, commitment: &Commitment) -> (r: Result<(), Self::Error>)
        ensures
            Self::observes(&*old(self), &*final(self), commitment, r),
    ;
}

/// Backend interface for the perfect batch-opening randomizer.
pub trait PerfectRandomizerBackend {
    /// Public commitment type emitted by the backend.
    type Commitment;
    /// Prover-side state carried between commitment and opening.
    type ProverState;
    /// Public evaluation type revealed by the claim surface.
    type PublicEvaluation;
    /// Hidden opening witness carried in the proof.
    type HiddenOpening;
    /// Backend-specific error type.
    type Error;

    /// Commitment model realized by this backend.
    fn commitment_model(&self) -> PerfectRandomizerCommitment;

    /// Commit to the perfect randomizer and retain any prover-side opening state.
    fn commit(&self, spec: &ShroudBatchOpeningSpec) -> Result<PreparedPerfectRandomizer<Self::Commitment, Self::ProverState>, Self::Error>;

    /// Observe the perfect-randomizer commitment in the transcript.
    ///
    /// The transcript observes exactly `commitment`, and its outcome is returned.
    fn observe<T: PerfectRandomizerTranscript>(&self, transcript: &mut T, commitment: &Self::Commitment) -> (r: Result<(), T::Error>)
        ensures
            T::observes(&*old(transcript), &*final(transcript), commitment, r),
    {
        transcript.observe_perfect_randomizer_commitment(commitment)
    }

    /// Open the perfect randomizer according to the claim surface described by the spec.
    fn open(&self, spec: &ShroudBatchOpeningSpec, prover_state: &Self::ProverState) -> Result<PerfectRandomizerOpening<Self::PublicEvaluation, Self::HiddenOpening>, Self::Error>;

    /// Reconstruct the verifier-facing perfect-randomizer view from the commitment and opening.
    fn reconstruct(
        &self,
        spec: &ShroudBatchOpeningSpec,
        commitment: &Self::Commitment,
        opening: &PerfectRandomizerOpening<Self::PublicEvaluation, Self::HiddenOpening>,
    ) -> Result<PerfectRandomizerReconstruction, Self::Error>;
}

/// Outer proof-system view of a perfect-randomizer commitment and its opening payload.
#[derive(Clone, Debug, PartialEq, Eq)]
pub struct PerfectRandomizerAdapterSurface<CommitmentSlot> {
    commitment_slot: CommitmentSlot,
    proof_slot_layout: ProofSlotLayout,
    opening_payload: PerfectRandomizerOpeningPayload,
}

impl<CommitmentSlot> PerfectRandomizerAdapterSurface<CommitmentSlot> {
    /// Commitment slot.
    pub closed spec fn spec_commitment_slot(&self) -> CommitmentSlot {
        self.commitment_slot
    }

    /// Proof-slot layout.
    pub closed spec fn spec_proof_slot_layout(&self) -> ProofSlotLayout {
        self.proof_slot_layout
    }

    /// Opening payload.
    pub closed spec fn spec_opening_payload(&self) -> PerfectRandomizerOpeningPayload {
        self.opening_payload
    }

    /// Builds an adapter surface for a perfect-randomizer commitment.
    pub fn new(
        commitment_slot: CommitmentSlot,
        proof_slot_layout: ProofSlotLayout,
        opening_payload: PerfectRandomizerOpeningPayload,
    ) -> (r: Self)
        ensures
            r.spec_commitment_slot() == commitment_slot,
            r.spec_proof_slot_layout() == proof_slot_layout,
            r.spec_opening_payload() == opening_payload,
    {
        PerfectRandomizerAdapterSurface { commitment_slot, proof_slot_layout, opening_payload }
    }

    /// Returns the outer proof slot that should carry the perfect-randomizer commitment.
    pub fn commitment_slot(&self) -> (r: &CommitmentSlot)
        ensures
            *r == self.spec_commitment_slot(),
    {
        &self.commitment_slot
    }

    /// Returns the proof-slot layout decision for the perfect randomizer.
    pub fn proof_slot_layout(&self) -> (r: ProofSlotLayout)
        ensures
            r == self.spec_proof_slot_layout(),
    {
        self.proof_slot_layout
    }

    /// Returns the opening payload expected by the adapter surface.
    pub fn opening_payload(&self) -> (r: PerfectRandomizerOpeningPayload)
        ensures
            r == self.spec_opening_payload(),
    {
        self.opening_payload
    }
}

/// Adapter surface between SHROUD's perfect-randomizer object and an outer proof layout.
pub trait PerfectRandomizerAdapter {
    /// Identifier used by the outer proof system for the commitment slot.
    type CommitmentSlot;
    /// Adapter-specific error type.
    type Error;

    /// Returns the outer proof layout required by the perfect-randomizer object.
    fn surface(&self, spec: &ShroudBatchOpeningSpec) -> Result<PerfectRandomizerAdapterSurface<Self::CommitmentSlot>, Self::Error>;

    /// Reconstructs the verifier-facing perfect-randomizer view from the adapter surface.
    fn reconstruct(
        &self,
        spec: &ShroudBatchOpeningSpec,
        surface: &PerfectRandomizerAdapterSurface<Self::CommitmentSlot>,
    ) -> Result<PerfectRandomizerReconstruction, Self::Error>;
}

/// A claim's field model describes a realization when both are encoded
/// (coordinates over an oracle bundle) or both are native extension-field
/// objects.
pub open spec fn field_model_fits(field_model: FieldModel, realization: PerfectRandomizerRealization) -> bool {
    match realization {
        PerfectRandomizerRealization::EncodedOracleBundle { .. } => field_model is EncodedCoordinates,
        PerfectRandomizerRealization::NativeExtensionPcs => field_model is NativeExtension,
    }
}

fn claim_fits_realization(field_model: FieldModel, realization: PerfectRandomizerRealization) -> (r: bool)
    ensures
        r == field_model_fits(field_model, realization),
{
    match realization {
        PerfectRandomizerRealization::EncodedOracleBundle { .. } => match field_model {
            FieldModel::EncodedCoordinates { .. } => true,
            FieldModel::NativeExtension { .. } => false,
        },
        PerfectRandomizerRealization::NativeExtensionPcs => match field_model {
            FieldModel::EncodedCoordinates { .. } => false,
            FieldModel::NativeExtension { .. } => true,
        },
    }
}

/// The object-level rules, checked in order: a perfect spec needs a
/// dedicated auxiliary boundary, and an encoded bundle's basis degree must
/// equal the shape's extension degree.
pub open spec fn batch_opening_rules(
    security_level: SecurityLevel,
    shape: BatchOpeningShape,
    commitment_boundary: CommitmentBoundary,
    randomizer: RandomizerSpec,
) -> Result<(), BatchOpeningSpecError> {
    if security_level is Perfect && commitment_boundary != CommitmentBoundary::DedicatedAuxiliaryPath {
        Err(BatchOpeningSpecError::PerfectVariantNeedsDedicatedAuxiliaryBoundary)
    } else {
        match randomizer {
            RandomizerSpec::Perfect(commitment) => match commitment.spec_realization() {
                PerfectRandomizerRealization::EncodedOracleBundle { basis } => if basis.extension_degree
                    != shape.spec_extension_degree() {
                    Err(
                        BatchOpeningSpecError::InconsistentEncodedBundleDegree {
                            shape_degree: shape.spec_extension_degree(),
                            basis_degree: basis.extension_degree,
                        },
                    )
                } else {
                    Ok(())
                },
                PerfectRandomizerRealization::NativeExtensionPcs => Ok(()),
            },
            RandomizerSpec::Statistical(_) => Ok(()),
        }
    }
}

/// Concrete spec for the first SHROUD protocol object.
#[derive(Clone, Debug, PartialEq, Eq)]
pub struct ShroudBatchOpeningSpec {
    security_level: SecurityLevel,
    shape: BatchOpeningShape,
    degree_budget: DegreeBudget,
    transcript_plan: TranscriptPlan,
    commitment_boundary: CommitmentBoundary,
    randomizer: RandomizerSpec,
}

impl ShroudBatchOpeningSpec {
    /// Security level.
    pub closed spec fn spec_security_level(&self) -> SecurityLevel {
        self.security_level
    }

    /// Shape.
    pub closed spec fn spec_shape(&self) -> BatchOpeningShape {
        self.shape
    }

    /// Degree budget.
    pub closed spec fn spec_degree_budget(&self) -> DegreeBudget {
        self.degree_budget
    }

    /// Transcript stages.
    pub closed spec fn spec_transcript_stages(&self) -> Seq<crate::transcript::TranscriptStage> {
        self.transcript_plan@
    }

    /// Commitment boundary.
    pub closed spec fn spec_commitment_boundary(&self) -> CommitmentBoundary {
        self.commitment_boundary
    }

    /// Randomizer model.
    pub closed spec fn spec_randomizer(&self) -> RandomizerSpec {
        self.randomizer
    }

    /// The spec's invariant: the transcript plan is canonical and the
    /// object-level rules accept.
    pub open spec fn wf(&self) -> bool {
        &&& self.spec_transcript_stages() == canonical_stages()
        &&& batch_opening_rules(
            self.spec_security_level(),
            self.spec_shape(),
            self.spec_commitment_boundary(),
            self.spec_randomizer(),
        ) is Ok
    }

    /// The spec holds exactly the given fields, with the canonical schedule.
    pub open spec fn built_from(
        &self,
        security_level: SecurityLevel,
        shape: BatchOpeningShape,
        degree_budget: DegreeBudget,
        commitment_boundary: CommitmentBoundary,
        randomizer: RandomizerSpec,
    ) -> bool {
        &&& self.spec_security_level() == security_level
        &&& self.spec_shape() == shape
        &&& self.spec_degree_budget() == degree_budget
        &&& self.spec_transcript_stages() == canonical_stages()
        &&& self.spec_commitment_boundary() == commitment_boundary
        &&& self.spec_randomizer() == randomizer
        &&& self.wf()
    }

    /// Builds the statistical batch-opening object with the default degree
    /// budget (randomizer degree one above the relation degree). This never
    /// fails.
    pub fn statistical(shape: BatchOpeningShape, relation_degree: usize) -> (r: Result<Self, BatchOpeningSpecError>)
        ensures
            r is Ok,
            r matches Ok(s) ==> s.spec_randomizer() matches RandomizerSpec::Statistical(model)
                && model.spec_coordinate_polynomials() == shape.spec_extension_degree()
                && s.built_from(
                SecurityLevel::Statistical,
                shape,
                s.spec_degree_budget(),
                CommitmentBoundary::SharedPcsHook,
                RandomizerSpec::Statistical(model),
            ),
            r matches Ok(s) ==> s.spec_degree_budget().relation() == relation_degree
                && s.spec_degree_budget().randomizer() == sat_add(relation_degree, 1),
    {
        match DegreeBudget::new(relation_degree, relation_degree.saturating_add(1)) {
            Ok(budget) => Self::statistical_with_degree_budget(shape, budget),
            Err(e) => Err(BatchOpeningSpecError::DegreeBudget(e)),
        }
    }

    /// Builds the statistical batch-opening object with an explicit degree
    /// budget. This never fails.
    pub fn statistical_with_degree_budget(shape: BatchOpeningShape, degree_budget: DegreeBudget) -> (r: Result<Self, BatchOpeningSpecError>)
        ensures
            r is Ok,
            r matches Ok(s) ==> s.spec_randomizer() matches RandomizerSpec::Statistical(model)
                && model.spec_coordinate_polynomials() == shape.spec_extension_degree()
                && s.built_from(
                SecurityLevel::Statistical,
                shape,
                degree_budget,
                CommitmentBoundary::SharedPcsHook,
                RandomizerSpec::Statistical(model),
            ),
    {
        Self::new(
            SecurityLevel::Statistical,
            shape,
            degree_budget,
            TranscriptPlan::standard_batch_opening(),
            CommitmentBoundary::SharedPcsHook,
            RandomizerSpec::Statistical(StatisticalRandomizerSpec::from_shape(shape)),
        )
    }

    /// Builds the perfect batch-opening object with the default degree budget.
    ///
    /// Fails when the claim's field model does not describe the commitment's
    /// realization, and otherwise exactly when an encoded-bundle basis
    /// disagrees with the shape's extension degree.
    pub fn perfect(
        shape: BatchOpeningShape,
        relation_degree: usize,
        commitment: PerfectRandomizerCommitment,
        claim: PerfectClaim,
    ) -> (r: Result<Self, BatchOpeningSpecError>)
        ensures
            Self::perfect_outcome(r, shape, commitment, claim),
            r matches Ok(s) ==> s.spec_degree_budget().relation() == relation_degree
                && s.spec_degree_budget().randomizer() == sat_add(relation_degree, 1),
    {
        match DegreeBudget::new(relation_degree, relation_degree.saturating_add(1)) {
            Ok(budget) => Self::perfect_with_degree_budget(shape, budget, commitment, claim),
            Err(e) => Err(BatchOpeningSpecError::DegreeBudget(e)),
        }
    }

    /// What the perfect constructors return: a field-model mismatch between
    /// the claim and the commitment first; then the built spec with a
    /// dedicated auxiliary boundary when the object-level rules accept, else
    /// their error.
    pub open spec fn perfect_outcome(
        r: Result<Self, BatchOpeningSpecError>,
        shape: BatchOpeningShape,
        commitment: PerfectRandomizerCommitment,
        claim: PerfectClaim,
    ) -> bool {
        let verdict = batch_opening_rules(
            SecurityLevel::Perfect,
            shape,
            CommitmentBoundary::DedicatedAuxiliaryPath,
            RandomizerSpec::Perfect(commitment),
        );
        if !field_model_fits(claim.field_model, commitment.spec_realization()) {
            r == Err::<Self, BatchOpeningSpecError>(
                BatchOpeningSpecError::PerfectClaimFieldModelMismatch {
                    claim_field_model: claim.field_model,
                    realization: commitment.spec_realization(),
                },
            )
        } else {
            &&& r is Ok <==> verdict is Ok
            &&& r matches Err(e) ==> verdict == Err::<(), BatchOpeningSpecError>(e)
            &&& r matches Ok(s) ==> s.built_from(
                SecurityLevel::Perfect,
                shape,
                s.spec_degree_budget(),
                CommitmentBoundary::DedicatedAuxiliaryPath,
                RandomizerSpec::Perfect(commitment),
            )
        }
    }

    /// Builds the perfect batch-opening object with an explicit degree budget.
    pub fn perfect_with_degree_budget(
        shape: BatchOpeningShape,
        degree_budget: DegreeBudget,
        commitment: PerfectRandomizerCommitment,
        claim: PerfectClaim,
    ) -> (r: Result<Self, BatchOpeningSpecError>)
        ensures
            Self::perfect_outcome(r, shape, commitment, claim),
            r matches Ok(s) ==> s.spec_degree_budget() == degree_budget,
    {
        let realization = commitment.realization();
        if !claim_fits_realization(claim.field_model, realization) {
            return Err(
                BatchOpeningSpecError::PerfectClaimFieldModelMismatch {
                    claim_field_model: claim.field_model,
                    realization,
                },
            );
        }
        Self::new(
            SecurityLevel::Perfect,
            shape,
            degree_budget,
            TranscriptPlan::standard_batch_opening(),
            CommitmentBoundary::DedicatedAuxiliaryPath,
            RandomizerSpec::Perfect(commitment),
        )
    }

    fn new(
        security_level: SecurityLevel,
        shape: BatchOpeningShape,
        degree_budget: DegreeBudget,
        transcript_plan: TranscriptPlan,
        commitment_boundary: CommitmentBoundary,
        randomizer: RandomizerSpec,
    ) -> (r: Result<Self, BatchOpeningSpecError>)
        requires
            transcript_plan@ == canonical_stages(),
        ensures
            ({
                let verdict = batch_opening_rules(security_level, shape, commitment_boundary, randomizer);
                &&& r is Ok <==> verdict is Ok
                &&& r matches Err(e) ==> verdict == Err::<(), BatchOpeningSpecError>(e)
                &&& r matches Ok(s) ==> s.built_from(
                    security_level,
                    shape,
                    degree_budget,
                    commitment_boundary,
                    randomizer,
                )
            }),
    {
        let spec = ShroudBatchOpeningSpec {
            security_level,
            shape,
            degree_budget,
            transcript_plan,
            commitment_boundary,
            randomizer,
        };
        match spec.validate() {
            Ok(()) => Ok(spec),
            Err(e) => Err(e),
        }
    }

    /// Returns the SHROUD security level for this object.
    pub fn security_level(&self) -> (r: SecurityLevel)
        ensures
            r == self.spec_security_level(),
    {
        self.security_level
    }

    /// Returns the statement shape.
    pub fn shape(&self) -> (r: BatchOpeningShape)
        ensures
            r == self.spec_shape(),
    {
        self.shape
    }

    /// Returns the degree budget.
    pub fn degree_budget(&self) -> (r: DegreeBudget)
        ensures
            r == self.spec_degree_budget(),
    {
        self.degree_budget
    }

    /// Returns the transcript plan.
    pub fn transcript_plan(&self) -> (r: &TranscriptPlan)
        ensures
            r@ == self.spec_transcript_stages(),
    {
        &self.transcript_plan
    }

    /// Returns the commitment boundary used by the randomizer.
    pub fn commitment_boundary(&self) -> (r: CommitmentBoundary)
        ensures
            r == self.spec_commitment_boundary(),
    {
        self.commitment_boundary
    }

    /// Returns the randomizer model.
    pub fn randomizer(&self) -> (r: RandomizerSpec)
        ensures
            r == self.spec_randomizer(),
    {
        self.randomizer
    }

    /// Returns the perfect randomizer commitment model when this is a perfect variant.
    pub fn perfect_randomizer_commitment(&self) -> (r: Option<PerfectRandomizerCommitment>)
        ensures
            r == match self.spec_randomizer() {
                RandomizerSpec::Perfect(model) => Some(model),
                RandomizerSpec::Statistical(_) => None::<PerfectRandomizerCommitment>,
            },
    {
        match self.randomizer {
            RandomizerSpec::Perfect(model) => Some(model),
            RandomizerSpec::Statistical(_) => None,
        }
    }

    /// Number of public randomizer evaluations exposed by the claim surface.
    pub fn public_randomizer_evaluations(&self) -> (r: usize)
        ensures
            r == self.spec_shape().spec_opening_points(),
    {
        self.shape.public_randomizer_evaluations()
    }

    /// Exact opening payload carried by the randomizer in this batch-opening object.
    pub fn randomizer_opening_payload(&self) -> (r: RandomizerOpeningPayload)
        ensures
            randomizer_payload_for(r, self.spec_randomizer(), self.spec_shape()),
    {
        match self.randomizer {
            RandomizerSpec::Statistical(model) => RandomizerOpeningPayload::Statistical(
                model.opening_payload(self.shape),
            ),
            RandomizerSpec::Perfect(model) => RandomizerOpeningPayload::Perfect(
                model.opening_payload(self.shape),
            ),
        }
    }

    /// Validates the invariants of the batch-opening object: the transcript
    /// plan first, then the object-level rules.
    pub fn validate(&self) -> (r: Result<(), BatchOpeningSpecError>)
        ensures
            self.spec_transcript_stages() != canonical_stages() ==> (r matches Err(
                BatchOpeningSpecError::Transcript(e),
            ) && plan_outcome_matches(self.spec_transcript_stages(), Err(e))),
            self.spec_transcript_stages() == canonical_stages() ==> r == batch_opening_rules(
                self.spec_security_level(),
                self.spec_shape(),
                self.spec_commitment_boundary(),
                self.spec_randomizer(),
            ),
    {
        match self.transcript_plan.validate() {
            Ok(()) => {},
            Err(e) => {
                return Err(BatchOpeningSpecError::Transcript(e));
            },
        }
        if self.security_level == SecurityLevel::Perfect && self.commitment_boundary
            != CommitmentBoundary::DedicatedAuxiliaryPath {
            return Err(BatchOpeningSpecError::PerfectVariantNeedsDedicatedAuxiliaryBoundary);
        }
        if let RandomizerSpec::Perfect(commitment) = self.randomizer {
            if let PerfectRandomizerRealization::EncodedOracleBundle { basis } = commitment.realization() {
                let shape_degree = self.shape.extension_degree();
                if basis.extension_degree != shape_degree {
                    return Err(
                        BatchOpeningSpecError::InconsistentEncodedBundleDegree {
                            shape_degree,
                            basis_degree: basis.extension_degree,
                        },
                    );
                }
            }
        }
        Ok(())
    }
}

/// An encoded-bundle perfect spec is accepted exactly when its basis degree
/// equals the shape's extension degree; a native-PCS perfect spec and every
/// statistical spec are always accepted.
pub proof fn law_perfect_acceptance(shape: BatchOpeningShape, basis: BasisDescriptor)
    ensures
        batch_opening_rules(
            SecurityLevel::Perfect,
            shape,
            CommitmentBoundary::DedicatedAuxiliaryPath,
            RandomizerSpec::Perfect(PerfectRandomizerCommitment::encoded_spec(basis)),
        ) is Ok <==> basis.extension_degree == shape.spec_extension_degree(),
        batch_opening_rules(
            SecurityLevel::Perfect,
            shape,
            CommitmentBoundary::DedicatedAuxiliaryPath,
            RandomizerSpec::Perfect(PerfectRandomizerCommitment::native_spec()),
        ) is Ok,
        forall|model: StatisticalRandomizerSpec| #[trigger]
            batch_opening_rules(
                SecurityLevel::Statistical,
                shape,
                CommitmentBoundary::SharedPcsHook,
                RandomizerSpec::Statistical(model),
            ) is Ok,
{
}

/// A perfect claim fits exactly one realization kind: encoded coordinates
/// fit every encoded oracle bundle and never the native PCS, and a native
/// extension fits the native PCS and never an encoded bundle.
pub proof fn law_claim_field_model_fits(field_model: FieldModel, basis: BasisDescriptor)
    ensures
        field_model_fits(field_model, PerfectRandomizerRealization::EncodedOracleBundle { basis })
            <==> field_model is EncodedCoordinates,
        field_model_fits(field_model, PerfectRandomizerRealization::NativeExtensionPcs)
            <==> field_model is NativeExtension,
        field_model_fits(field_model, PerfectRandomizerRealization::EncodedOracleBundle { basis })
            != field_model_fits(field_model, PerfectRandomizerRealization::NativeExtensionPcs),
{
}

/// When `points * extension degree` fits in `usize`, a statistical
/// randomizer built from the shape carries exactly that many hidden
/// coordinate evaluations, and one public evaluation per point.
pub proof fn law_statistical_payload_accounting(
    p: StatisticalRandomizerOpeningPayload,
    model: StatisticalRandomizerSpec,
    shape: BatchOpeningShape,
)
    requires
        statistical_payload_for(p, model, shape),
        model.spec_coordinate_polynomials() == shape.spec_extension_degree(),
        shape.spec_opening_points() * shape.spec_extension_degree() <= usize::MAX,
    ensures
        p.spec_hidden_base_field_coordinate_evaluations() == shape.spec_opening_points()
            * shape.spec_extension_degree(),
        p.spec_public_extension_evaluations() == shape.spec_opening_points(),
{
}

/// When `points * basis degree` fits in `usize`, an encoded bundle carries
/// exactly that many hidden coordinate evaluations.
pub proof fn law_encoded_bundle_payload_accounting(
    p: PerfectRandomizerOpeningPayload,
    basis: BasisDescriptor,
    shape: BatchOpeningShape,
)
    requires
        perfect_payload_for(p, PerfectRandomizerCommitment::encoded_spec(basis), shape),
        shape.spec_opening_points() * basis.extension_degree <= usize::MAX,
    ensures
        p.spec_hidden_payload() == (PerfectHiddenOpeningPayload::EncodedCoordinates {
            base_field_coordinate_evaluations: (shape.spec_opening_points() * basis.extension_degree) as usize,
            transport: HiddenOpeningTransport::InBandWithMainOpeningProof,
        }),
        p.spec_public_extension_evaluations() == shape.spec_opening_points(),
{
}

/// Payload accounting through the statistical constructor: a statistical
/// spec built from `shape` (coordinate polynomials equal to the extension
/// degree, as `statistical` ensures) carries one public evaluation per
/// opening point and `points * extension degree` hidden coordinate
/// evaluations, when that product fits in `usize`.
pub proof fn law_statistical_spec_payload(
    s: ShroudBatchOpeningSpec,
    shape: BatchOpeningShape,
    p: RandomizerOpeningPayload,
)
    requires
        s.spec_shape() == shape,
        s.spec_randomizer() matches RandomizerSpec::Statistical(model)
            && model.spec_coordinate_polynomials() == shape.spec_extension_degree(),
        randomizer_payload_for(p, s.spec_randomizer(), s.spec_shape()),
        shape.spec_opening_points() * shape.spec_extension_degree() <= usize::MAX,
    ensures
        p matches RandomizerOpeningPayload::Statistical(q)
            && q.spec_public_extension_evaluations() == shape.spec_opening_points()
            && q.spec_hidden_base_field_coordinate_evaluations() == shape.spec_opening_points()
            * shape.spec_extension_degree(),
{
}

/// Payload accounting through the perfect constructor over an encoded
/// bundle: with a claim over encoded coordinates and a basis of the shape's
/// extension degree the constructor succeeds, and the spec carries one
/// public evaluation per opening point and `points * extension degree`
/// hidden coordinate evaluations in-band, when that product fits in `usize`.
pub proof fn law_encoded_perfect_spec_payload(
    r: Result<ShroudBatchOpeningSpec, BatchOpeningSpecError>,
    shape: BatchOpeningShape,
    basis: BasisDescriptor,
    claim: PerfectClaim,
    p: RandomizerOpeningPayload,
)
    requires
        ShroudBatchOpeningSpec::perfect_outcome(r, shape, PerfectRandomizerCommitment::encoded_spec(basis), claim),
        claim.field_model is EncodedCoordinates,
        basis.extension_degree == shape.spec_extension_degree(),
        shape.spec_opening_points() * shape.spec_extension_degree() <= usize::MAX,
    ensures
        r is Ok,
        randomizer_payload_for(p, r->Ok_0.spec_randomizer(), r->Ok_0.spec_shape()) ==> (p matches RandomizerOpeningPayload::Perfect(q)
            && q.spec_public_extension_evaluations() == shape.spec_opening_points()
            && q.spec_hidden_payload() == (PerfectHiddenOpeningPayload::EncodedCoordinates {
                base_field_coordinate_evaluations: (shape.spec_opening_points() * shape.spec_extension_degree()) as usize,
                transport: HiddenOpeningTransport::InBandWithMainOpeningProof,
            })),
{
}

/// Human-readable rendering of a batch-opening error.
pub open spec fn batch_opening_error_text(e: BatchOpeningSpecError) -> Seq<char> {
    match e {
        BatchOpeningSpecError::ZeroCommittedPolynomials => "batch-opening shape must contain at least one committed polynomial"@,
        BatchOpeningSpecError::ZeroOpeningPoints => "batch-opening shape must contain at least one opening point"@,
        BatchOpeningSpecError::ZeroExtensionDegree => "batch-opening shape must use a non-zero extension degree"@,
        BatchOpeningSpecError::DegreeBudget(err) => crate::degree::degree_budget_error_text(err),
        BatchOpeningSpecError::Transcript(err) => crate::transcript::plan_error_text(err),
        BatchOpeningSpecError::PerfectVariantNeedsDedicatedAuxiliaryBoundary => "perfect batch-opening variants must use a dedicated auxiliary commitment boundary"@,
        BatchOpeningSpecError::InconsistentEncodedBundleDegree { shape_degree, basis_degree } =>
            "encoded-bundle basis extension degree ("@ + decimal(basis_degree as nat)
            + ") does not match batch-opening shape extension degree ("@ + decimal(
            shape_degree as nat,
        ) + "); the basis must describe the same field as the opening domain"@,
        BatchOpeningSpecError::PerfectClaimFieldModelMismatch { .. } => "perfect claim field model does not match the randomizer commitment realization; encoded coordinates need an encoded oracle bundle and a native extension needs a native extension PCS"@,
    }
}

impl BatchOpeningSpecError {
    /// Human-readable description of this error.
    pub fn message(&self) -> (r: String)
        ensures
            r@ == batch_opening_error_text(*self),
    {
        match self {
            BatchOpeningSpecError::ZeroCommittedPolynomials => String::from_str(
                "batch-opening shape must contain at least one committed polynomial",
            ),
            BatchOpeningSpecError::ZeroOpeningPoints => String::from_str(
                "batch-opening shape must contain at least one opening point",
            ),
            BatchOpeningSpecError::ZeroExtensionDegree => String::from_str(
                "batch-opening shape must use a non-zero extension degree",
            ),
            BatchOpeningSpecError::DegreeBudget(err) => err.message(),
            BatchOpeningSpecError::Transcript(err) => err.message(),
            BatchOpeningSpecError::PerfectVariantNeedsDedicatedAuxiliaryBoundary => String::from_str(
                "perfect batch-opening variants must use a dedicated auxiliary commitment boundary",
            ),
            BatchOpeningSpecError::InconsistentEncodedBundleDegree { shape_degree, basis_degree } => {
                let mut s = String::from_str("encoded-bundle basis extension degree (");
                push_decimal(&mut s, *basis_degree as u64);
                s.append(") does not match batch-opening shape extension degree (");
                push_decimal(&mut s, *shape_degree as u64);
                s.append("); the basis must describe the same field as the opening domain");
                s
            },
            BatchOpeningSpecError::PerfectClaimFieldModelMismatch { .. } => String::from_str(
                "perfect claim field model does not match the randomizer commitment realization; encoded coordinates need an encoded oracle bundle and a native extension needs a native extension PCS",
            ),
        }
    }
}

impl From<DegreeBudgetError> for BatchOpeningSpecError {
    fn from(value: DegreeBudgetError) -> (r: Self)
        ensures
            r == BatchOpeningSpecError::DegreeBudget(value),
    {
        BatchOpeningSpecError::DegreeBudget(value)
    }
}

impl vstd::std_specs::convert::FromSpecImpl<DegreeBudgetError> for BatchOpeningSpecError {
    open spec fn obeys_from_spec() -> bool {
        true
    }

    open spec fn from_spec(v: DegreeBudgetError) -> Self {
        BatchOpeningSpecError::DegreeBudget(v)
    }
}

impl From<TranscriptPlanError> for BatchOpeningSpecError {
    fn from(value: TranscriptPlanError) -> (r: Self)
        ensures
            r == BatchOpeningSpecError::Transcript(value),
    {
        BatchOpeningSpecError::Transcript(value)
    }
}

impl vstd::std_specs::convert::FromSpecImpl<TranscriptPlanError> for BatchOpeningSpecError {
    open spec fn obeys_from_spec() -> bool {
        true
    }

    open spec fn from_spec(v: TranscriptPlanError) -> Self {
        BatchOpeningSpecError::Transcript(v)
    }
}

} // verus!
