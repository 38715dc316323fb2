//! Scoped backend claims: which transcript region a backend's accepted claim
//! covers, and which upstream theorems it relies on.
use vstd::prelude::*;
use crate::security::SecurityLevel;

verus! {

/// A SHROUD claim scope names exactly which backend events / oracle slots
/// are covered by the accepted claim. It is a closed enum so that adding a
/// scope forces review of the corresponding bridge grammar and tests.
#[derive(Clone, Copy, Debug, PartialEq, Eq, Hash, Structural)]
pub enum ClaimScope {
    /// SHROUD core protocol-object level only; no backend bridge attached.
    CoreBatchOpening,
    /// Plonky3 uni-stark transcript bound up to (and including) the zeta
    /// sample; post-zeta events are placeholders.
    Plonky3UniStarkPreGrind,
    /// Plonky3 uni-stark transcript including PCS-internal post-grind events.
    Plonky3FullFriReplay,
    /// HVZK-WHIR PCS coverage.
    WhirHvzk,
}

/// Stable cross-language discriminant of a scope.
pub open spec fn scope_discriminant(s: ClaimScope) -> u32 {
    match s {
        ClaimScope::CoreBatchOpening => 0,
        ClaimScope::Plonky3UniStarkPreGrind => 1,
        ClaimScope::Plonky3FullFriReplay => 2,
        ClaimScope::WhirHvzk => 3,
    }
}

/// Whether a scope requires every backend event to be sourced live.
pub open spec fn scope_requires_full_live(s: ClaimScope) -> bool {
    s is Plonky3FullFriReplay || s is WhirHvzk
}

impl ClaimScope {
    /// Stable cross-language discriminant.
    pub fn discriminant(self) -> (d: u32)
        ensures
            d == scope_discriminant(self),
    {
        match self {
            ClaimScope::CoreBatchOpening => 0,
            ClaimScope::Plonky3UniStarkPreGrind => 1,
            ClaimScope::Plonky3FullFriReplay => 2,
            ClaimScope::WhirHvzk => 3,
        }
    }

    /// Does this scope require every backend event to be sourced live (or
    /// declared as static configuration), with no placeholder bindings?
    pub fn requires_full_live(self) -> (r: bool)
        ensures
            r == scope_requires_full_live(self),
    {
        match self {
            ClaimScope::Plonky3FullFriReplay | ClaimScope::WhirHvzk => true,
            _ => false,
        }
    }
}

/// Distinct scopes have distinct discriminants.
pub proof fn law_scope_discriminants_distinct(a: ClaimScope, b: ClaimScope)
    ensures
        scope_discriminant(a) == scope_discriminant(b) <==> a == b,
{
}

/// Named upstream theorems SHROUD may rely on but does not re-prove.
#[derive(Clone, Copy, Debug, PartialEq, Eq, Hash, Structural)]
pub enum UpstreamCitation {
    /// BCS-IOP HVZK to ZK lift.
    BcsIop,
    /// DEEP-FRI Johnson-bound soundness and OOD challenge mechanism.
    DeepFri,
    /// Reed-Solomon proximity-gap soundness.
    ProximityGaps,
    /// HVZK-WHIR ZK for constrained interleaved codes.
    HvzkWhir,
    /// Haböck-Kindi vanishing-factor quotient masking.
    HabockKindi,
    /// Aurora bounded-independence masking.
    Aurora,
    /// Ligero interleaved-RS masking.
    Ligero,
    /// RedShift random codeword in interleaved batch.
    RedShift,
    /// Bertoni sponge indifferentiability.
    SpongeIndifferentiability,
    /// Fiat-Shamir in the random-oracle model, baseline.
    FiatShamirRom,
    /// Chiesa-Orrù duplex-sponge Fiat-Shamir.
    ChiesaOrruSpongeFs,
}

/// Stable cross-language discriminant of a citation.
pub open spec fn citation_discriminant(c: UpstreamCitation) -> u32 {
    match c {
        UpstreamCitation::BcsIop => 0,
        UpstreamCitation::DeepFri => 1,
        UpstreamCitation::ProximityGaps => 2,
        UpstreamCitation::HvzkWhir => 3,
        UpstreamCitation::HabockKindi => 4,
        UpstreamCitation::Aurora => 5,
        UpstreamCitation::Ligero => 6,
        UpstreamCitation::RedShift => 7,
        UpstreamCitation::SpongeIndifferentiability => 8,
        UpstreamCitation::FiatShamirRom => 9,
        UpstreamCitation::ChiesaOrruSpongeFs => 10,
    }
}

impl UpstreamCitation {
    /// Stable cross-language discriminant.
    pub fn discriminant(self) -> (d: u32)
        ensures
            d == citation_discriminant(self),
    {
        match self {
            UpstreamCitation::BcsIop => 0,
            UpstreamCitation::DeepFri => 1,
            UpstreamCitation::ProximityGaps => 2,
            UpstreamCitation::HvzkWhir => 3,
            UpstreamCitation::HabockKindi => 4,
            UpstreamCitation::Aurora => 5,
            UpstreamCitation::Ligero => 6,
            UpstreamCitation::RedShift => 7,
            UpstreamCitation::SpongeIndifferentiability => 8,
            UpstreamCitation::FiatShamirRom => 9,
            UpstreamCitation::ChiesaOrruSpongeFs => 10,
        }
    }
}

/// Distinct citations have distinct discriminants.
pub proof fn law_citation_discriminants_distinct(a: UpstreamCitation, b: UpstreamCitation)
    ensures
        citation_discriminant(a) == citation_discriminant(b) <==> a == b,
{
}

/// A backend's declared scoped claim. SHROUD accepts this claim under
/// explicit local checks; it does not derive or strengthen it.
#[derive(Clone, Debug, PartialEq, Eq)]
pub struct BackendClaim {
    /// Declared hiding level.
    pub security_level: SecurityLevel,
    /// Declared scope (which transcript region the claim covers).
    pub scope: ClaimScope,
    /// Inspectable list of upstream theorems the claim depends on.
    pub citations: Vec<UpstreamCitation>,
}

impl BackendClaim {
    /// Convenience constructor.
    pub fn new(security_level: SecurityLevel, scope: ClaimScope, citations: Vec<UpstreamCitation>) -> (c: Self)
        ensures
            c.security_level == security_level,
            c.scope == scope,
            c.citations@ == citations@,
    {
        BackendClaim { security_level, scope, citations }
    }

    /// Whether this claim's scope requires full-live binding sources.
    pub fn requires_full_live(&self) -> (r: bool)
        ensures
            r == scope_requires_full_live(self.scope),
    {
        self.scope.requires_full_live()
    }
}

/// Backend-bridge contract: a type implementing this trait exposes its
/// declared [`BackendClaim`] and runs the local independent-check pipeline
/// that justifies acceptance.
pub trait BackendClaimSurface {
    /// Error type returned by `verify_independent_checks`.
    type Error;

    /// The claim this implementation accepts, as a spec value.
    spec fn accepted_claim(&self) -> BackendClaim;

    /// The full [`BackendClaim`] this implementation accepts.
    fn backend_claim(&self) -> (c: BackendClaim)
        ensures
            c == self.accepted_claim(),
    ;

    /// The scope of the accepted claim, projected from [`Self::backend_claim`].
    fn claim_scope(&self) -> (s: ClaimScope)
        ensures
            s == self.accepted_claim().scope,
    {
        self.backend_claim().scope
    }

    /// Run the local independent-check pipeline.
    fn verify_independent_checks(&self) -> Result<(), Self::Error>;
}

} // verus!
