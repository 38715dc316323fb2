//! Backend-neutral adapter surface for landing SHROUD objects in concrete proof systems.
use vstd::prelude::*;
use crate::batch_opening::{
    CommitmentBoundary, ProofSlotLayout, RandomizerOpeningPayload, ShroudBatchOpeningSpec,
};
use crate::codeword_embedding::{CodewordEmbeddingPayload, ShroudCodewordEmbeddingSpec};
use crate::opening_projection::{OpeningProjectionPayload, ShroudOpeningProjectionSpec};
use crate::oracle_commitment::{OracleCommitmentPayload, ShroudOracleCommitmentSpec};
use crate::quotient_hider::{QuotientDecompositionFamily, QuotientHiderPayload, ShroudQuotientHiderSpec};
use crate::security::SecurityLevel;

verus! {

/// The proof-slot layout a randomizer opening payload implies.
pub open spec fn payload_slot_layout(payload: RandomizerOpeningPayload) -> ProofSlotLayout {
    match payload {
        RandomizerOpeningPayload::Statistical(p) => p.spec_proof_slot_layout(),
        RandomizerOpeningPayload::Perfect(p) => p.spec_proof_slot_layout(),
    }
}

/// Returns the proof-slot layout implied by a randomizer opening payload.
pub fn proof_slot_layout(payload: RandomizerOpeningPayload) -> (r: ProofSlotLayout)
    ensures
        r == payload_slot_layout(payload),
{
    match payload {
        RandomizerOpeningPayload::Statistical(payload) => payload.proof_slot_layout(),
        RandomizerOpeningPayload::Perfect(payload) => payload.proof_slot_layout(),
    }
}

/// Outer proof-system plan for carrying a SHROUD batch-opening object.
///
/// `required_log_blowup` is a protocol precondition, at least 2: a hiding
/// FRI PCS with a smaller blowup does not give the randomizer columns enough
/// evaluation points to mask the trace.
#[derive(Clone, Debug, PartialEq, Eq)]
pub struct BatchOpeningAdapterPlan<CommitmentSlot> {
    security_level: SecurityLevel,
    commitment_boundary: CommitmentBoundary,
    commitment_slot: CommitmentSlot,
    proof_slot_layout: ProofSlotLayout,
    opening_payload: RandomizerOpeningPayload,
    required_log_blowup: usize,
}

impl<CommitmentSlot> BatchOpeningAdapterPlan<CommitmentSlot> {
    /// Security level.
    pub closed spec fn spec_security_level(&self) -> SecurityLevel {
        self.security_level
    }

    /// Commitment boundary.
    pub closed spec fn spec_commitment_boundary(&self) -> CommitmentBoundary {
        self.commitment_boundary
    }

    /// Commitment slot.
    pub closed spec fn spec_commitment_slot(&self) -> CommitmentSlot {
        self.commitment_slot
    }

    /// Proof-slot layout.
    pub closed spec fn spec_proof_slot_layout(&self) -> ProofSlotLayout {
        self.proof_slot_layout
    }

    /// Opening payload.
    pub closed spec fn spec_opening_payload(&self) -> RandomizerOpeningPayload {
        self.opening_payload
    }

    /// Required log blowup.
    pub closed spec fn spec_required_log_blowup(&self) -> usize {
        self.required_log_blowup
    }

    /// Builds a backend-neutral batch-opening adapter plan; the proof-slot
    /// layout is the one the payload implies.
    ///
    /// The blowup must be at least 2: a blowup of 1 (the non-hiding default)
    /// does not provide enough evaluation points for the randomizer columns
    /// to mask the trace.
    pub fn new(
        security_level: SecurityLevel,
        commitment_boundary: CommitmentBoundary,
        commitment_slot: CommitmentSlot,
        opening_payload: RandomizerOpeningPayload,
        required_log_blowup: usize,
    ) -> (p: Self)
        requires
            required_log_blowup >= 2,
        ensures
            p.spec_security_level() == security_level,
            p.spec_commitment_boundary() == commitment_boundary,
            p.spec_commitment_slot() == commitment_slot,
            p.spec_proof_slot_layout() == payload_slot_layout(opening_payload),
            p.spec_opening_payload() == opening_payload,
            p.spec_required_log_blowup() == required_log_blowup,
    {
        BatchOpeningAdapterPlan {
            security_level,
            commitment_boundary,
            commitment_slot,
            proof_slot_layout: proof_slot_layout(opening_payload),
            opening_payload,
            required_log_blowup,
        }
    }

    /// Security level implemented by the adapted batch-opening object.
    pub fn security_level(&self) -> (r: SecurityLevel)
        ensures
            r == self.spec_security_level(),
    {
        self.security_level
    }

    /// Commitment boundary required by the adapted batch-opening object.
    pub fn commitment_boundary(&self) -> (r: CommitmentBoundary)
        ensures
            r == self.spec_commitment_boundary(),
    {
        self.commitment_boundary
    }

    /// Outer proof slot used by the backend to carry the randomizer commitment.
    pub fn commitment_slot(&self) -> (r: &CommitmentSlot)
        ensures
            *r == self.spec_commitment_slot(),
    {
        &self.commitment_slot
    }

    /// Proof-slot layout required by the SHROUD randomizer payload.
    pub fn proof_slot_layout(&self) -> (r: ProofSlotLayout)
        ensures
            r == self.spec_proof_slot_layout(),
    {
        self.proof_slot_layout
    }

    /// Randomizer opening payload required by the batch-opening object.
    pub fn opening_payload(&self) -> (r: RandomizerOpeningPayload)
        ensures
            r == self.spec_opening_payload(),
    {
        self.opening_payload
    }

    /// Minimum FRI blowup factor required by this batch-opening object.
    pub fn required_log_blowup(&self) -> (r: usize)
        ensures
            r == self.spec_required_log_blowup(),
    {
        self.required_log_blowup
    }
}

/// Backend-neutral adapter trait for the SHROUD batch-opening object.
pub trait BatchOpeningAdapter {
    /// Identifier used by the outer proof system for the commitment slot.
    type CommitmentSlot;
    /// Adapter-specific error type.
    type Error;

    /// Produces the outer proof-layout plan required by the supplied SHROUD spec.
    fn plan(&self, spec: &ShroudBatchOpeningSpec) -> Result<BatchOpeningAdapterPlan<Self::CommitmentSlot>, Self::Error>;

    /// Checks that an outer proof-layout plan is compatible with the supplied SHROUD spec.
    fn validate(&self, spec: &ShroudBatchOpeningSpec, plan: &BatchOpeningAdapterPlan<Self::CommitmentSlot>) -> Result<(), Self::Error>;
}

/// Outer proof-system plan for carrying a SHROUD opening-projection object.
#[derive(Clone, Debug, PartialEq, Eq)]
pub struct OpeningProjectionAdapterPlan<PublicOpeningSlot, HiddenAuxiliarySlot> {
    security_level: SecurityLevel,
    public_opening_slot: PublicOpeningSlot,
    hidden_auxiliary_slot: HiddenAuxiliarySlot,
    payload: OpeningProjectionPayload,
}

impl<PublicOpeningSlot, HiddenAuxiliarySlot> OpeningProjectionAdapterPlan<PublicOpeningSlot, HiddenAuxiliarySlot> {
    /// Security level.
    pub closed spec fn spec_security_level(&self) -> SecurityLevel {
        self.security_level
    }

    /// Public opening slot.
    pub closed spec fn spec_public_opening_slot(&self) -> PublicOpeningSlot {
        self.public_opening_slot
    }

    /// Hidden auxiliary slot.
    pub closed spec fn spec_hidden_auxiliary_slot(&self) -> HiddenAuxiliarySlot {
        self.hidden_auxiliary_slot
    }

    /// Payload.
    pub closed spec fn spec_payload(&self) -> OpeningProjectionPayload {
        self.payload
    }

    /// Builds a backend-neutral opening-projection adapter plan; it only
    /// stores the supplied slots and payload.
    pub fn new(
        security_level: SecurityLevel,
        public_opening_slot: PublicOpeningSlot,
        hidden_auxiliary_slot: HiddenAuxiliarySlot,
        payload: OpeningProjectionPayload,
    ) -> (p: Self)
        ensures
            p.spec_security_level() == security_level,
            p.spec_public_opening_slot() == public_opening_slot,
            p.spec_hidden_auxiliary_slot() == hidden_auxiliary_slot,
            p.spec_payload() == payload,
    {
        OpeningProjectionAdapterPlan { security_level, public_opening_slot, hidden_auxiliary_slot, payload }
    }

    /// Security level implemented by the adapted opening-projection object.
    pub fn security_level(&self) -> (r: SecurityLevel)
        ensures
            r == self.spec_security_level(),
    {
        self.security_level
    }

    /// Outer proof slot used for the public opening view.
    pub fn public_opening_slot(&self) -> (r: &PublicOpeningSlot)
        ensures
            *r == self.spec_public_opening_slot(),
    {
        &self.public_opening_slot
    }

    /// Outer proof slot or envelope used for the hidden auxiliary opening data.
    pub fn hidden_auxiliary_slot(&self) -> (r: &HiddenAuxiliarySlot)
        ensures
            *r == self.spec_hidden_auxiliary_slot(),
    {
        &self.hidden_auxiliary_slot
    }

    /// Projection payload carried by the outer proof layout.
    pub fn payload(&self) -> (r: OpeningProjectionPayload)
        ensures
            r == self.spec_payload(),
    {
        self.payload
    }
}

/// Backend-neutral adapter trait for the SHROUD opening-projection object.
pub trait OpeningProjectionAdapter {
    /// Identifier used by the outer proof system for the public opening slot.
    type PublicOpeningSlot;
    /// Identifier used by the outer proof system for the hidden auxiliary slot.
    type HiddenAuxiliarySlot;
    /// Adapter-specific error type.
    type Error;

    /// Produces the outer proof-layout plan required by the supplied SHROUD projection spec.
    fn plan(&self, spec: &ShroudOpeningProjectionSpec) -> Result<OpeningProjectionAdapterPlan<Self::PublicOpeningSlot, Self::HiddenAuxiliarySlot>, Self::Error>;

    /// Checks that an outer proof-layout plan is compatible with the supplied SHROUD projection.
    fn validate(
        &self,
        spec: &ShroudOpeningProjectionSpec,
        plan: &OpeningProjectionAdapterPlan<Self::PublicOpeningSlot, Self::HiddenAuxiliarySlot>,
    ) -> Result<(), Self::Error>;
}

/// Outer proof-system plan for carrying a SHROUD oracle-commitment object.
#[derive(Clone, Debug, PartialEq, Eq)]
pub struct OracleCommitmentAdapterPlan<CommitmentSlot, PublicOpeningSlot, HiddenAuxiliarySlot> {
    security_level: SecurityLevel,
    commitment_slot: CommitmentSlot,
    public_opening_slot: PublicOpeningSlot,
    hidden_auxiliary_slot: HiddenAuxiliarySlot,
    payload: OracleCommitmentPayload,
}

impl<CommitmentSlot, PublicOpeningSlot, HiddenAuxiliarySlot> OracleCommitmentAdapterPlan<
    CommitmentSlot,
    PublicOpeningSlot,
    HiddenAuxiliarySlot,
> {
    /// Security level.
    pub closed spec fn spec_security_level(&self) -> SecurityLevel {
        self.security_level
    }

    /// Commitment slot.
    pub closed spec fn spec_commitment_slot(&self) -> CommitmentSlot {
        self.commitment_slot
    }

    /// Public opening slot.
    pub closed spec fn spec_public_opening_slot(&self) -> PublicOpeningSlot {
        self.public_opening_slot
    }

    /// Hidden auxiliary slot.
    pub closed spec fn spec_hidden_auxiliary_slot(&self) -> HiddenAuxiliarySlot {
        self.hidden_auxiliary_slot
    }

    /// Payload.
    pub closed spec fn spec_payload(&self) -> OracleCommitmentPayload {
        self.payload
    }

    /// Builds a backend-neutral oracle-commitment adapter plan; it only
    /// stores the supplied slots and payload.
    pub fn new(
        security_level: SecurityLevel,
        commitment_slot: CommitmentSlot,
        public_opening_slot: PublicOpeningSlot,
        hidden_auxiliary_slot: HiddenAuxiliarySlot,
        payload: OracleCommitmentPayload,
    ) -> (p: Self)
        ensures
            p.spec_security_level() == security_level,
            p.spec_commitment_slot() == commitment_slot,
            p.spec_public_opening_slot() == public_opening_slot,
            p.spec_hidden_auxiliary_slot() == hidden_auxiliary_slot,
            p.spec_payload() == payload,
    {
        OracleCommitmentAdapterPlan {
            security_level,
            commitment_slot,
            public_opening_slot,
            hidden_auxiliary_slot,
            payload,
        }
    }

    /// Security level implemented by the adapted oracle-commitment object.
    pub fn security_level(&self) -> (r: SecurityLevel)
        ensures
            r == self.spec_security_level(),
    {
        self.security_level
    }

    /// Outer proof slot used for the public commitment object.
    pub fn commitment_slot(&self) -> (r: &CommitmentSlot)
        ensures
            *r == self.spec_commitment_slot(),
    {
        &self.commitment_slot
    }

    /// Outer proof slot or envelope used for the public queried rows and authentication data.
    pub fn public_opening_slot(&self) -> (r: &PublicOpeningSlot)
        ensures
            *r == self.spec_public_opening_slot(),
    {
        &self.public_opening_slot
    }

    /// Outer proof slot or envelope used for the hidden row-hiding witness material.
    pub fn hidden_auxiliary_slot(&self) -> (r: &HiddenAuxiliarySlot)
        ensures
            *r == self.spec_hidden_auxiliary_slot(),
    {
        &self.hidden_auxiliary_slot
    }

    /// Oracle-commitment payload carried by the outer proof layout.
    pub fn payload(&self) -> (r: OracleCommitmentPayload)
        ensures
            r == self.spec_payload(),
    {
        self.payload
    }
}

/// Result type returned by backend-neutral oracle-commitment adapters.
pub type OracleCommitmentAdapterResult<CommitmentSlot, PublicOpeningSlot, HiddenAuxiliarySlot, Error> = Result<
    OracleCommitmentAdapterPlan<CommitmentSlot, PublicOpeningSlot, HiddenAuxiliarySlot>,
    Error,
>;

/// Backend-neutral adapter trait for the SHROUD oracle-commitment object.
pub trait OracleCommitmentAdapter {
    /// Identifier used by the outer proof system for the public commitment slot.
    type CommitmentSlot;
    /// Identifier used by the outer proof system for the public opening slot.
    type PublicOpeningSlot;
    /// Identifier used by the outer proof system for the hidden auxiliary slot.
    type HiddenAuxiliarySlot;
    /// Adapter-specific error type.
    type Error;

    /// Produces the outer proof-layout plan required by the supplied SHROUD oracle-commitment spec.
    fn plan(&self, spec: &ShroudOracleCommitmentSpec) -> OracleCommitmentAdapterResult<
        Self::CommitmentSlot,
        Self::PublicOpeningSlot,
        Self::HiddenAuxiliarySlot,
        Self::Error,
    >;

    /// Checks that an outer proof-layout plan is compatible with the supplied SHROUD oracle commitment.
    fn validate(
        &self,
        spec: &ShroudOracleCommitmentSpec,
        plan: &OracleCommitmentAdapterPlan<
            Self::CommitmentSlot,
            Self::PublicOpeningSlot,
            Self::HiddenAuxiliarySlot,
        >,
    ) -> Result<(), Self::Error>;
}

/// Outer proof-system plan for carrying a SHROUD quotient-hider object.
#[derive(Clone, Debug, PartialEq, Eq)]
pub struct QuotientHiderAdapterPlan<CommitmentSlot, PublicOpeningSlot, HiddenAuxiliarySlot> {
    security_level: SecurityLevel,
    decomposition_family: QuotientDecompositionFamily,
    query_budget: usize,
    commitment_slot: CommitmentSlot,
    public_opening_slot: PublicOpeningSlot,
    hidden_auxiliary_slot: HiddenAuxiliarySlot,
    payload: QuotientHiderPayload,
}

impl<CommitmentSlot, PublicOpeningSlot, HiddenAuxiliarySlot> QuotientHiderAdapterPlan<
    CommitmentSlot,
    PublicOpeningSlot,
    HiddenAuxiliarySlot,
> {
    /// Security level.
    pub closed spec fn spec_security_level(&self) -> SecurityLevel {
        self.security_level
    }

    /// Decomposition family.
    pub closed spec fn spec_decomposition_family(&self) -> QuotientDecompositionFamily {
        self.decomposition_family
    }

    /// Query budget.
    pub closed spec fn spec_query_budget(&self) -> usize {
        self.query_budget
    }

    /// Commitment slot.
    pub closed spec fn spec_commitment_slot(&self) -> CommitmentSlot {
        self.commitment_slot
    }

    /// Public opening slot.
    pub closed spec fn spec_public_opening_slot(&self) -> PublicOpeningSlot {
        self.public_opening_slot
    }

    /// Hidden auxiliary slot.
    pub closed spec fn spec_hidden_auxiliary_slot(&self) -> HiddenAuxiliarySlot {
        self.hidden_auxiliary_slot
    }

    /// Payload.
    pub closed spec fn spec_payload(&self) -> QuotientHiderPayload {
        self.payload
    }

    /// Builds a backend-neutral quotient-hider adapter plan; it only stores
    /// the supplied fields and payload.
    pub fn new(
        security_level: SecurityLevel,
        decomposition_family: QuotientDecompositionFamily,
        query_budget: usize,
        commitment_slot: CommitmentSlot,
        public_opening_slot: PublicOpeningSlot,
        hidden_auxiliary_slot: HiddenAuxiliarySlot,
        payload: QuotientHiderPayload,
    ) -> (p: Self)
        ensures
            p.spec_security_level() == security_level,
            p.spec_decomposition_family() == decomposition_family,
            p.spec_query_budget() == query_budget,
            p.spec_commitment_slot() == commitment_slot,
            p.spec_public_opening_slot() == public_opening_slot,
            p.spec_hidden_auxiliary_slot() == hidden_auxiliary_slot,
            p.spec_payload() == payload,
    {
        QuotientHiderAdapterPlan {
            security_level,
            decomposition_family,
            query_budget,
            commitment_slot,
            public_opening_slot,
            hidden_auxiliary_slot,
            payload,
        }
    }

    /// Security level implemented by the adapted quotient-hider object.
    pub fn security_level(&self) -> (r: SecurityLevel)
        ensures
            r == self.spec_security_level(),
    {
        self.security_level
    }

    /// Quotient decomposition family implemented by the adapted object.
    pub fn decomposition_family(&self) -> (r: QuotientDecompositionFamily)
        ensures
            r == self.spec_decomposition_family(),
    {
        self.decomposition_family
    }

    /// Query budget claimed by the adapted quotient-hider object.
    pub fn query_budget(&self) -> (r: usize)
        ensures
            r == self.spec_query_budget(),
    {
        self.query_budget
    }

    /// Outer proof slot used for the public quotient commitment object.
    pub fn commitment_slot(&self) -> (r: &CommitmentSlot)
        ensures
            *r == self.spec_commitment_slot(),
    {
        &self.commitment_slot
    }

    /// Outer proof slot or envelope used for the public quotient opening values.
    pub fn public_opening_slot(&self) -> (r: &PublicOpeningSlot)
        ensures
            *r == self.spec_public_opening_slot(),
    {
        &self.public_opening_slot
    }

    /// Outer proof slot or envelope used for the hidden quotient auxiliary material.
    pub fn hidden_auxiliary_slot(&self) -> (r: &HiddenAuxiliarySlot)
        ensures
            *r == self.spec_hidden_auxiliary_slot(),
    {
        &self.hidden_auxiliary_slot
    }

    /// Quotient-hider payload carried by the outer proof layout.
    pub fn payload(&self) -> (r: QuotientHiderPayload)
        ensures
            r == self.spec_payload(),
    {
        self.payload
    }
}

/// Result type returned by backend-neutral quotient-hider adapters.
pub type QuotientHiderAdapterResult<CommitmentSlot, PublicOpeningSlot, HiddenAuxiliarySlot, Error> = Result<
    QuotientHiderAdapterPlan<CommitmentSlot, PublicOpeningSlot, HiddenAuxiliarySlot>,
    Error,
>;

/// Backend-neutral adapter trait for the SHROUD quotient-hider object.
pub trait QuotientHiderAdapter {
    /// Identifier used by the outer proof system for the public commitment slot.
    type CommitmentSlot;
    /// Identifier used by the outer proof system for the public opening slot.
    type PublicOpeningSlot;
    /// Identifier used by the outer proof system for the hidden auxiliary slot.
    type HiddenAuxiliarySlot;
    /// Adapter-specific error type.
    type Error;

    /// Produces the outer proof-layout plan required by the supplied SHROUD quotient-hider spec.
    fn plan(&self, spec: &ShroudQuotientHiderSpec) -> QuotientHiderAdapterResult<
        Self::CommitmentSlot,
        Self::PublicOpeningSlot,
        Self::HiddenAuxiliarySlot,
        Self::Error,
    >;

    /// Checks that an outer proof-layout plan is compatible with the supplied SHROUD quotient hider.
    fn validate(
        &self,
        spec: &ShroudQuotientHiderSpec,
        plan: &QuotientHiderAdapterPlan<
            Self::CommitmentSlot,
            Self::PublicOpeningSlot,
            Self::HiddenAuxiliarySlot,
        >,
    ) -> Result<(), Self::Error>;
}

/// Outer proof-system plan for carrying a SHROUD codeword-embedding object.
///
/// The blowup constraint lives in `payload.required_log_blowup()`.
#[derive(Clone, Debug, PartialEq, Eq)]
pub struct CodewordEmbeddingAdapterPlan<CommitmentSlot, PublicOpeningSlot, HiddenAuxiliarySlot> {
    security_level: SecurityLevel,
    commitment_slot: CommitmentSlot,
    public_opening_slot: PublicOpeningSlot,
    hidden_auxiliary_slot: HiddenAuxiliarySlot,
    payload: CodewordEmbeddingPayload,
}

impl<CommitmentSlot, PublicOpeningSlot, HiddenAuxiliarySlot> CodewordEmbeddingAdapterPlan<
    CommitmentSlot,
    PublicOpeningSlot,
    HiddenAuxiliarySlot,
> {
    /// Security level.
    pub closed spec fn spec_security_level(&self) -> SecurityLevel {
        self.security_level
    }

    /// Commitment slot.
    pub closed spec fn spec_commitment_slot(&self) -> CommitmentSlot {
        self.commitment_slot
    }

    /// Public opening slot.
    pub closed spec fn spec_public_opening_slot(&self) -> PublicOpeningSlot {
        self.public_opening_slot
    }

    /// Hidden auxiliary slot.
    pub closed spec fn spec_hidden_auxiliary_slot(&self) -> HiddenAuxiliarySlot {
        self.hidden_auxiliary_slot
    }

    /// Payload.
    pub closed spec fn spec_payload(&self) -> CodewordEmbeddingPayload {
        self.payload
    }

    /// Builds a backend-neutral codeword-embedding adapter plan; it only
    /// stores the supplied slots and payload.
    pub fn new(
        security_level: SecurityLevel,
        commitment_slot: CommitmentSlot,
        public_opening_slot: PublicOpeningSlot,
        hidden_auxiliary_slot: HiddenAuxiliarySlot,
        payload: CodewordEmbeddingPayload,
    ) -> (p: Self)
        ensures
            p.spec_security_level() == security_level,
            p.spec_commitment_slot() == commitment_slot,
            p.spec_public_opening_slot() == public_opening_slot,
            p.spec_hidden_auxiliary_slot() == hidden_auxiliary_slot,
            p.spec_payload() == payload,
    {
        CodewordEmbeddingAdapterPlan {
            security_level,
            commitment_slot,
            public_opening_slot,
            hidden_auxiliary_slot,
            payload,
        }
    }

    /// Security level implemented by the adapted codeword-embedding object.
    pub fn security_level(&self) -> (r: SecurityLevel)
        ensures
            r == self.spec_security_level(),
    {
        self.security_level
    }

    /// Outer proof slot used for the committed matrix (trace + randomizer columns).
    pub fn commitment_slot(&self) -> (r: &CommitmentSlot)
        ensures
            *r == self.spec_commitment_slot(),
    {
        &self.commitment_slot
    }

    /// Outer proof slot used for the opened trace column evaluations.
    pub fn public_opening_slot(&self) -> (r: &PublicOpeningSlot)
        ensures
            *r == self.spec_public_opening_slot(),
    {
        &self.public_opening_slot
    }

    /// Outer proof slot or envelope used for the hidden randomizer column opening material.
    pub fn hidden_auxiliary_slot(&self) -> (r: &HiddenAuxiliarySlot)
        ensures
            *r == self.spec_hidden_auxiliary_slot(),
    {
        &self.hidden_auxiliary_slot
    }

    /// Codeword-embedding payload carried by the outer proof layout.
    pub fn payload(&self) -> (r: CodewordEmbeddingPayload)
        ensures
            r == self.spec_payload(),
    {
        self.payload
    }
}

/// Result type returned by backend-neutral codeword-embedding adapters.
pub type CodewordEmbeddingAdapterResult<CommitmentSlot, PublicOpeningSlot, HiddenAuxiliarySlot, Error> = Result<
    CodewordEmbeddingAdapterPlan<CommitmentSlot, PublicOpeningSlot, HiddenAuxiliarySlot>,
    Error,
>;

/// Backend-neutral adapter trait for the SHROUD codeword-embedding object.
pub trait CodewordEmbeddingAdapter {
    /// Identifier used by the outer proof system for the committed matrix slot.
    type CommitmentSlot;
    /// Identifier used by the outer proof system for the public trace opening slot.
    type PublicOpeningSlot;
    /// Identifier used by the outer proof system for the hidden randomizer auxiliary slot.
    type HiddenAuxiliarySlot;
    /// Adapter-specific error type.
    type Error;

    /// Produces the outer proof-layout plan required by the supplied SHROUD codeword-embedding spec.
    fn plan(&self, spec: &ShroudCodewordEmbeddingSpec) -> CodewordEmbeddingAdapterResult<
        Self::CommitmentSlot,
        Self::PublicOpeningSlot,
        Self::HiddenAuxiliarySlot,
        Self::Error,
    >;

    /// Checks that an outer proof-layout plan is compatible with the supplied SHROUD codeword embedding.
    fn validate(
        &self,
        spec: &ShroudCodewordEmbeddingSpec,
        plan: &CodewordEmbeddingAdapterPlan<
            Self::CommitmentSlot,
            Self::PublicOpeningSlot,
            Self::HiddenAuxiliarySlot,
        >,
    ) -> Result<(), Self::Error>;
}

} // verus!
