//! SHROUD object for hidden oracle commitments and authenticated row openings.
//!
//! `SecurityLevel` records the claimed hiding level of the oracle-commitment
//! object; it does not force one hiding-witness transport.
use vstd::prelude::*;
use crate::binding::{TranscriptBindable, TranscriptBinding, DOMAIN_ORACLE_COMMITMENT};
use crate::bytes::{le64, push_le64, append_bytes};
use crate::claim::{PerfectClaim, PerfectClaimError, perfect_claim_bytes, perfect_claim_verdict};
use crate::security::{SecurityLevel, security_level_byte, security_level_discriminant};
use crate::text::{decimal, push_decimal};

verus! {

/// How row-hiding witness material is transported through the outer proof.
#[derive(Clone, Copy, Debug, PartialEq, Eq, Structural)]
pub enum OracleAuxiliaryTransport {
    /// Hidden row-hiding witness material stays in-band with the opening proof.
    InBandWithOpeningProof,
    /// Hidden row-hiding witness material moves in a separate proof envelope or field.
    SeparateAuxiliaryProof,
}

/// Error raised when an oracle-commitment object violates a SHROUD invariant.
#[derive(Clone, Copy, Debug, PartialEq, Eq, Structural)]
pub enum OracleCommitmentError {
    /// A hidden oracle commitment must contain at least one commitment object.
    ZeroCommittedOracles,
    /// A hidden oracle commitment must open at least one queried row.
    ZeroQueriedRows,
    /// A queried row must expose at least one value.
    ZeroRowWidth,
    /// Each queried row must expose at least one authentication item.
    ZeroAuthenticationItemsPerQuery,
    /// Each queried row must carry at least one hidden row-hiding witness item.
    ZeroHiddenWitnessItemsPerQuery,
    /// Perfect variants must carry a structured `PerfectClaim`.
    PerfectRequiresClaim,
    /// Statistical variants must not carry perfect-claim evidence.
    PerfectClaimOnStatisticalSpec,
    /// The supplied `PerfectClaim` is internally inconsistent.
    PerfectClaim(PerfectClaimError),
    /// The perfect claim query budget does not cover all queried oracle rows.
    PerfectClaimQueryBudgetTooSmall {
        /// Query budget declared by the perfect claim.
        claim_query_budget: usize,
        /// Query budget required by the object surface.
        required_query_budget: usize,
    },
    /// The public row value count `queried_rows * row_width` overflowed `usize`.
    PublicRowValuesOverflow {
        /// Number of queried rows.
        queried_rows: usize,
        /// Number of public row values per queried row.
        row_width: usize,
    },
    /// The public authentication item count overflowed `usize`.
    PublicAuthenticationItemsOverflow {
        /// Number of queried rows.
        queried_rows: usize,
        /// Number of authentication items per queried row.
        authentication_items_per_query: usize,
    },
    /// The hidden witness item count overflowed `usize`.
    HiddenWitnessItemsOverflow {
        /// Number of queried rows.
        queried_rows: usize,
        /// Number of hidden witness items per queried row.
        hidden_hiding_witness_items_per_query: usize,
    },
    /// The derived payload no longer matches the validated shape.
    PayloadShapeMismatch,
}

/// Shape of the hidden oracle-commitment opening surface.
///
/// Invariant: every count is non-zero and each per-row count times the
/// number of queried rows fits in `usize`, so payload accounting is exact.
#[derive(Clone, Copy, Debug, PartialEq, Eq, Structural)]
pub struct OracleCommitmentShape {
    committed_oracles: usize,
    queried_rows: usize,
    row_width: usize,
    authentication_items_per_query: usize,
    hidden_hiding_witness_items_per_query: usize,
}

/// The verdict on a proposed shape: the first zero count, then the first
/// product with the number of queried rows that overflows `usize`.
pub open spec fn oracle_shape_verdict(
    committed_oracles: usize,
    queried_rows: usize,
    row_width: usize,
    authentication_items_per_query: usize,
    hidden_hiding_witness_items_per_query: usize,
) -> Result<(), OracleCommitmentError> {
    if committed_oracles == 0 {
        Err(OracleCommitmentError::ZeroCommittedOracles)
    } else if queried_rows == 0 {
        Err(OracleCommitmentError::ZeroQueriedRows)
    } else if row_width == 0 {
        Err(OracleCommitmentError::ZeroRowWidth)
    } else if authentication_items_per_query == 0 {
        Err(OracleCommitmentError::ZeroAuthenticationItemsPerQuery)
    } else if hidden_hiding_witness_items_per_query == 0 {
        Err(OracleCommitmentError::ZeroHiddenWitnessItemsPerQuery)
    } else if queried_rows * row_width > usize::MAX {
        Err(OracleCommitmentError::PublicRowValuesOverflow { queried_rows, row_width })
    } else if queried_rows * authentication_items_per_query > usize::MAX {
        Err(
            OracleCommitmentError::PublicAuthenticationItemsOverflow {
                queried_rows,
                authentication_items_per_query,
            },
        )
    } else if queried_rows * hidden_hiding_witness_items_per_query > usize::MAX {
        Err(
            OracleCommitmentError::HiddenWitnessItemsOverflow {
                queried_rows,
                hidden_hiding_witness_items_per_query,
            },
        )
    } else {
        Ok(())
    }
}

impl OracleCommitmentShape {
    #[verifier::type_invariant]
    spec fn products_fit(self) -> bool {
        &&& self.queried_rows * self.row_width <= usize::MAX
        &&& self.queried_rows * self.authentication_items_per_query <= usize::MAX
        &&& self.queried_rows * self.hidden_hiding_witness_items_per_query <= usize::MAX
    }

    /// Committed oracles.
    pub closed spec fn spec_committed_oracles(self) -> usize {
        self.committed_oracles
    }

    /// Queried rows.
    pub closed spec fn spec_queried_rows(self) -> usize {
        self.queried_rows
    }

    /// Public values per row.
    pub closed spec fn spec_row_width(self) -> usize {
        self.row_width
    }

    /// Public authentication items per queried row.
    pub closed spec fn spec_authentication_items_per_query(self) -> usize {
        self.authentication_items_per_query
    }

    /// Hidden witness items per queried row.
    pub closed spec fn spec_hidden_hiding_witness_items_per_query(self) -> usize {
        self.hidden_hiding_witness_items_per_query
    }

    /// Builds a validated oracle-commitment shape.
    pub fn new(
        committed_oracles: usize,
        queried_rows: usize,
        row_width: usize,
        authentication_items_per_query: usize,
        hidden_hiding_witness_items_per_query: usize,
    ) -> (r: Result<Self, OracleCommitmentError>)
        ensures
            ({
                let verdict = oracle_shape_verdict(
                    committed_oracles,
                    queried_rows,
                    row_width,
                    authentication_items_per_query,
                    hidden_hiding_witness_items_per_query,
                );
                &&& r is Ok <==> verdict is Ok
                &&& r matches Err(e) ==> verdict == Err::<(), OracleCommitmentError>(e)
                &&& r matches Ok(s) ==> {
                    &&& s.spec_committed_oracles() == committed_oracles
                    &&& s.spec_queried_rows() == queried_rows
                    &&& s.spec_row_width() == row_width
                    &&& s.spec_authentication_items_per_query() == authentication_items_per_query
                    &&& s.spec_hidden_hiding_witness_items_per_query()
                        == hidden_hiding_witness_items_per_query
                }
            }),
    {
        if committed_oracles == 0 {
            return Err(OracleCommitmentError::ZeroCommittedOracles);
        }
        if queried_rows == 0 {
            return Err(OracleCommitmentError::ZeroQueriedRows);
        }
        if row_width == 0 {
            return Err(OracleCommitmentError::ZeroRowWidth);
        }
        if authentication_items_per_query == 0 {
            return Err(OracleCommitmentError::ZeroAuthenticationItemsPerQuery);
        }
        if hidden_hiding_witness_items_per_query == 0 {
            return Err(OracleCommitmentError::ZeroHiddenWitnessItemsPerQuery);
        }
        if queried_rows.checked_mul(row_width).is_none() {
            return Err(OracleCommitmentError::PublicRowValuesOverflow { queried_rows, row_width });
        }
        if queried_rows.checked_mul(authentication_items_per_query).is_none() {
            return Err(
                OracleCommitmentError::PublicAuthenticationItemsOverflow {
                    queried_rows,
                    authentication_items_per_query,
                },
            );
        }
        if queried_rows.checked_mul(hidden_hiding_witness_items_per_query).is_none() {
            return Err(
                OracleCommitmentError::HiddenWitnessItemsOverflow {
                    queried_rows,
                    hidden_hiding_witness_items_per_query,
                },
            );
        }
        Ok(
            OracleCommitmentShape {
                committed_oracles,
                queried_rows,
                row_width,
                authentication_items_per_query,
                hidden_hiding_witness_items_per_query,
            },
        )
    }

    /// Number of committed oracle objects.
    pub fn committed_oracles(self) -> (r: usize)
        ensures
            r == self.spec_committed_oracles(),
    {
        self.committed_oracles
    }

    /// Number of queried rows opened by the backend.
    pub fn queried_rows(self) -> (r: usize)
        ensures
            r == self.spec_queried_rows(),
    {
        self.queried_rows
    }

    /// Number of public row values exposed per queried row.
    pub fn row_width(self) -> (r: usize)
        ensures
            r == self.spec_row_width(),
    {
        self.row_width
    }

    /// Number of public authentication items exposed per queried row.
    pub fn authentication_items_per_query(self) -> (r: usize)
        ensures
            r == self.spec_authentication_items_per_query(),
    {
        self.authentication_items_per_query
    }

    /// Number of hidden row-hiding witness items carried per queried row.
    pub fn hidden_hiding_witness_items_per_query(self) -> (r: usize)
        ensures
            r == self.spec_hidden_hiding_witness_items_per_query(),
    {
        self.hidden_hiding_witness_items_per_query
    }
}

/// Public-vs-hidden opening payload implied by a hidden oracle-commitment object.
#[derive(Clone, Copy, Debug, PartialEq, Eq, Structural)]
pub struct OracleCommitmentPayload {
    public_commitments: usize,
    public_row_values: usize,
    public_authentication_items: usize,
    hidden_hiding_witness_items: usize,
    auxiliary_transport: OracleAuxiliaryTransport,
}

impl OracleCommitmentPayload {
    /// Public commitment objects.
    pub closed spec fn spec_public_commitments(self) -> usize {
        self.public_commitments
    }

    /// Public row values.
    pub closed spec fn spec_public_row_values(self) -> usize {
        self.public_row_values
    }

    /// Public authentication items.
    pub closed spec fn spec_public_authentication_items(self) -> usize {
        self.public_authentication_items
    }

    /// Hidden witness items.
    pub closed spec fn spec_hidden_hiding_witness_items(self) -> usize {
        self.hidden_hiding_witness_items
    }

    /// Transport of the hidden material.
    pub closed spec fn spec_auxiliary_transport(self) -> OracleAuxiliaryTransport {
        self.auxiliary_transport
    }

    /// The payload's counts are the exact products implied by `shape`.
    pub open spec fn matches_shape(self, shape: OracleCommitmentShape) -> bool {
        &&& self.spec_public_commitments() == shape.spec_committed_oracles()
        &&& self.spec_public_row_values() == shape.spec_queried_rows() * shape.spec_row_width()
        &&& self.spec_public_authentication_items() == shape.spec_queried_rows()
            * shape.spec_authentication_items_per_query()
        &&& self.spec_hidden_hiding_witness_items() == shape.spec_queried_rows()
            * shape.spec_hidden_hiding_witness_items_per_query()
    }

    /// Builds an oracle-commitment payload from a validated shape.
    pub fn new(shape: OracleCommitmentShape, auxiliary_transport: OracleAuxiliaryTransport) -> (p: Self)
        ensures
            p.matches_shape(shape),
            p.spec_auxiliary_transport() == auxiliary_transport,
    {
        proof {
            use_type_invariant(&shape);
        }
        OracleCommitmentPayload {
            public_commitments: shape.committed_oracles(),
            public_row_values: shape.queried_rows() * shape.row_width(),
            public_authentication_items: shape.queried_rows()
                * shape.authentication_items_per_query(),
            hidden_hiding_witness_items: shape.queried_rows()
                * shape.hidden_hiding_witness_items_per_query(),
            auxiliary_transport,
        }
    }

    /// Number of public commitment objects carried by the outer proof.
    pub fn public_commitments(self) -> (r: usize)
        ensures
            r == self.spec_public_commitments(),
    {
        self.public_commitments
    }

    /// Number of public row values revealed by the opening surface.
    pub fn public_row_values(self) -> (r: usize)
        ensures
            r == self.spec_public_row_values(),
    {
        self.public_row_values
    }

    /// Number of public authentication items revealed by the opening surface.
    pub fn public_authentication_items(self) -> (r: usize)
        ensures
            r == self.spec_public_authentication_items(),
    {
        self.public_authentication_items
    }

    /// Number of hidden row-hiding witness items carried in the proof.
    pub fn hidden_hiding_witness_items(self) -> (r: usize)
        ensures
            r == self.spec_hidden_hiding_witness_items(),
    {
        self.hidden_hiding_witness_items
    }

    /// Transport used for the hidden row-hiding witness material.
    pub fn auxiliary_transport(self) -> (r: OracleAuxiliaryTransport)
        ensures
            r == self.spec_auxiliary_transport(),
    {
        self.auxiliary_transport
    }
}

/// The object-level rules, checked in order: the level and the presence of
/// a perfect claim must agree; a present claim must be internally consistent
/// and its query budget must cover every queried row.
pub open spec fn oracle_commitment_rules(
    security_level: SecurityLevel,
    perfect_claim: Option<PerfectClaim>,
    shape: OracleCommitmentShape,
) -> Result<(), OracleCommitmentError> {
    if security_level is Perfect && perfect_claim is None {
        Err(OracleCommitmentError::PerfectRequiresClaim)
    } else if security_level is Statistical && perfect_claim is Some {
        Err(OracleCommitmentError::PerfectClaimOnStatisticalSpec)
    } else {
        match perfect_claim {
            None => Ok(()),
            Some(claim) => match perfect_claim_verdict(claim) {
                Err(e) => Err(OracleCommitmentError::PerfectClaim(e)),
                Ok(()) => if claim.query_budget < shape.spec_queried_rows() {
                    Err(
                        OracleCommitmentError::PerfectClaimQueryBudgetTooSmall {
                            claim_query_budget: claim.query_budget,
                            required_query_budget: shape.spec_queried_rows(),
                        },
                    )
                } else {
                    Ok(())
                },
            },
        }
    }
}

/// The verdict of [`ShroudOracleCommitmentSpec::validate`]: the object-level
/// rules, then the payload/shape consistency check.
pub open spec fn oracle_commitment_verdict(
    security_level: SecurityLevel,
    perfect_claim: Option<PerfectClaim>,
    shape: OracleCommitmentShape,
    payload: OracleCommitmentPayload,
) -> Result<(), OracleCommitmentError> {
    match oracle_commitment_rules(security_level, perfect_claim, shape) {
        Err(e) => Err(e),
        Ok(()) => if payload.matches_shape(shape) {
            Ok(())
        } else {
            Err(OracleCommitmentError::PayloadShapeMismatch)
        },
    }
}

/// SHROUD object for hidden oracle commitments.
///
/// Invariant: [`oracle_commitment_verdict`] accepts its fields.
#[derive(Clone, Copy, Debug, PartialEq, Eq, Structural)]
pub struct ShroudOracleCommitmentSpec {
    security_level: SecurityLevel,
    perfect_claim: Option<PerfectClaim>,
    shape: OracleCommitmentShape,
    payload: OracleCommitmentPayload,
}

impl ShroudOracleCommitmentSpec {
    /// Security level.
    pub closed spec fn spec_security_level(&self) -> SecurityLevel {
        self.security_level
    }

    /// Perfect claim, if any.
    pub closed spec fn spec_perfect_claim(&self) -> Option<PerfectClaim> {
        self.perfect_claim
    }

    /// Shape.
    pub closed spec fn spec_shape(&self) -> OracleCommitmentShape {
        self.shape
    }

    /// Payload.
    pub closed spec fn spec_payload(&self) -> OracleCommitmentPayload {
        self.payload
    }

    /// The spec's invariant: its fields pass validation.
    pub open spec fn wf(&self) -> bool {
        oracle_commitment_verdict(
            self.spec_security_level(),
            self.spec_perfect_claim(),
            self.spec_shape(),
            self.spec_payload(),
        ) is Ok
    }

    /// What a constructor returns: the built spec when the object-level rules
    /// accept, otherwise their error. The payload is derived from the shape,
    /// so the payload/shape check never fires here.
    pub open spec fn construction_outcome(
        r: Result<Self, OracleCommitmentError>,
        security_level: SecurityLevel,
        perfect_claim: Option<PerfectClaim>,
        shape: OracleCommitmentShape,
        auxiliary_transport: OracleAuxiliaryTransport,
    ) -> bool {
        let verdict = oracle_commitment_rules(security_level, perfect_claim, shape);
        &&& r is Ok <==> verdict is Ok
        &&& r matches Err(e) ==> verdict == Err::<(), OracleCommitmentError>(e)
        &&& r matches Ok(s) ==> {
            &&& s.spec_security_level() == security_level
            &&& s.spec_perfect_claim() == perfect_claim
            &&& s.spec_shape() == shape
            &&& s.spec_payload().matches_shape(shape)
            &&& s.spec_payload().spec_auxiliary_transport() == auxiliary_transport
            &&& s.wf()
        }
    }

    /// Builds a statistical hidden oracle-commitment object.
    pub fn statistical(shape: OracleCommitmentShape, auxiliary_transport: OracleAuxiliaryTransport) -> (r: Result<Self, OracleCommitmentError>)
        ensures
            r is Ok,
            Self::construction_outcome(
                r,
                SecurityLevel::Statistical,
                None,
                shape,
                auxiliary_transport,
            ),
    {
        Self::new_with_claim(SecurityLevel::Statistical, None, shape, auxiliary_transport)
    }

    /// Builds a perfect hidden oracle-commitment object.
    pub fn perfect(
        shape: OracleCommitmentShape,
        auxiliary_transport: OracleAuxiliaryTransport,
        perfect_claim: PerfectClaim,
    ) -> (r: Result<Self, OracleCommitmentError>)
        ensures
            Self::construction_outcome(
                r,
                SecurityLevel::Perfect,
                Some(perfect_claim),
                shape,
                auxiliary_transport,
            ),
            r is Ok <==> (perfect_claim.query_budget > 0 && perfect_claim.hiding_mmcs
                && perfect_claim.query_budget >= shape.spec_queried_rows()),
            perfect_claim.query_budget > 0 && perfect_claim.hiding_mmcs && perfect_claim.query_budget
                < shape.spec_queried_rows() ==> r == Err::<Self, OracleCommitmentError>(
                OracleCommitmentError::PerfectClaimQueryBudgetTooSmall {
                    claim_query_budget: perfect_claim.query_budget,
                    required_query_budget: shape.spec_queried_rows(),
                },
            ),
    {
        Self::new_with_claim(SecurityLevel::Perfect, Some(perfect_claim), shape, auxiliary_transport)
    }

    /// Builds a hidden oracle-commitment object with an explicit security
    /// level and no perfect claim.
    pub fn new(
        security_level: SecurityLevel,
        shape: OracleCommitmentShape,
        auxiliary_transport: OracleAuxiliaryTransport,
    ) -> (r: Result<Self, OracleCommitmentError>)
        ensures
            Self::construction_outcome(r, security_level, None, shape, auxiliary_transport),
            r is Ok <==> security_level is Statistical,
            security_level is Perfect ==> r == Err::<Self, OracleCommitmentError>(
                OracleCommitmentError::PerfectRequiresClaim,
            ),
    {
        Self::new_with_claim(security_level, None, shape, auxiliary_transport)
    }

    fn new_with_claim(
        security_level: SecurityLevel,
        perfect_claim: Option<PerfectClaim>,
        shape: OracleCommitmentShape,
        auxiliary_transport: OracleAuxiliaryTransport,
    ) -> (r: Result<Self, OracleCommitmentError>)
        ensures
            Self::construction_outcome(r, security_level, perfect_claim, shape, auxiliary_transport),
    {
        let payload = OracleCommitmentPayload::new(shape, auxiliary_transport);
        let spec = ShroudOracleCommitmentSpec { security_level, perfect_claim, shape, payload };
        match spec.validate() {
            Ok(()) => Ok(spec),
            Err(e) => Err(e),
        }
    }

    /// Security level implemented by the hidden oracle-commitment object.
    pub fn security_level(&self) -> (r: SecurityLevel)
        ensures
            r == self.spec_security_level(),
    {
        self.security_level
    }

    /// Structured justification for a perfect HVZK claim, if this is a perfect variant.
    pub fn perfect_claim(&self) -> (r: Option<PerfectClaim>)
        ensures
            r == self.spec_perfect_claim(),
    {
        self.perfect_claim
    }

    /// Shape of the hidden oracle-commitment opening surface.
    pub fn shape(&self) -> (r: OracleCommitmentShape)
        ensures
            r == self.spec_shape(),
    {
        self.shape
    }

    /// Public-vs-hidden payload implied by the commitment object.
    pub fn payload(&self) -> (r: OracleCommitmentPayload)
        ensures
            r == self.spec_payload(),
    {
        self.payload
    }

    /// Transport used by the hidden row-hiding witness material.
    pub fn auxiliary_transport(&self) -> (r: OracleAuxiliaryTransport)
        ensures
            r == self.spec_payload().spec_auxiliary_transport(),
    {
        self.payload.auxiliary_transport()
    }

    /// Validates the shape-level invariants of the oracle-commitment object.
    pub fn validate(&self) -> (r: Result<(), OracleCommitmentError>)
        ensures
            r == oracle_commitment_verdict(
                self.spec_security_level(),
                self.spec_perfect_claim(),
                self.spec_shape(),
                self.spec_payload(),
            ),
            ({
                let c = self.spec_perfect_claim()->Some_0;
                self.spec_security_level() is Perfect && self.spec_payload().matches_shape(self.spec_shape())
                    && self.spec_perfect_claim() is Some && c.query_budget > 0 && c.hiding_mmcs
                    ==> (r is Ok <==> c.query_budget >= self.spec_shape().spec_queried_rows())
            }),
    {
        match (self.security_level, self.perfect_claim) {
            (SecurityLevel::Perfect, None) => {
                return Err(OracleCommitmentError::PerfectRequiresClaim);
            },
            (SecurityLevel::Statistical, Some(_)) => {
                return Err(OracleCommitmentError::PerfectClaimOnStatisticalSpec);
            },
            (_, _) => {},
        }
        if let Some(claim) = self.perfect_claim {
            match claim.validate() {
                Ok(()) => {},
                Err(e) => {
                    return Err(OracleCommitmentError::PerfectClaim(e));
                },
            }
            let required_query_budget = self.shape.queried_rows();
            if claim.query_budget < required_query_budget {
                return Err(
                    OracleCommitmentError::PerfectClaimQueryBudgetTooSmall {
                        claim_query_budget: claim.query_budget,
                        required_query_budget,
                    },
                );
            }
        }
        proof {
            use_type_invariant(&self.shape);
        }
        if self.payload.public_commitments() != self.shape.committed_oracles()
            || self.payload.public_row_values() != self.shape.queried_rows()
            * self.shape.row_width() || self.payload.public_authentication_items()
            != self.shape.queried_rows() * self.shape.authentication_items_per_query()
            || self.payload.hidden_hiding_witness_items() != self.shape.queried_rows()
            * self.shape.hidden_hiding_witness_items_per_query() {
            return Err(OracleCommitmentError::PayloadShapeMismatch);
        }
        Ok(())
    }
}

/// A perfect oracle commitment with a valid claim (non-zero budget, hiding
/// MMCS) is accepted exactly when the claim's query budget covers the
/// queried rows; a short budget is rejected with
/// `PerfectClaimQueryBudgetTooSmall`, and raising an accepted budget keeps
/// it accepted.
pub proof fn law_perfect_claim_budget_covers_queried_rows(
    shape: OracleCommitmentShape,
    claim: PerfectClaim,
    higher_budget: usize,
)
    requires
        claim.query_budget > 0,
        claim.hiding_mmcs,
        claim.query_budget <= higher_budget,
    ensures
        oracle_commitment_rules(SecurityLevel::Perfect, Some(claim), shape) is Ok
            <==> claim.query_budget >= shape.spec_queried_rows(),
        claim.query_budget < shape.spec_queried_rows() ==> oracle_commitment_rules(
            SecurityLevel::Perfect,
            Some(claim),
            shape,
        ) == Err::<(), OracleCommitmentError>(
            OracleCommitmentError::PerfectClaimQueryBudgetTooSmall {
                claim_query_budget: claim.query_budget,
                required_query_budget: shape.spec_queried_rows(),
            },
        ),
        oracle_commitment_rules(SecurityLevel::Perfect, Some(claim), shape) is Ok
            ==> oracle_commitment_rules(
            SecurityLevel::Perfect,
            Some(PerfectClaim { query_budget: higher_budget, ..claim }),
            shape,
        ) is Ok,
{
}

/// One-byte discriminant of an oracle transport.
pub open spec fn oracle_transport_byte(t: OracleAuxiliaryTransport) -> u8 {
    match t {
        OracleAuxiliaryTransport::InBandWithOpeningProof => 0,
        OracleAuxiliaryTransport::SeparateAuxiliaryProof => 1,
    }
}

fn auxiliary_transport_discriminant(transport: OracleAuxiliaryTransport) -> (b: u8)
    ensures
        b == oracle_transport_byte(transport),
{
    match transport {
        OracleAuxiliaryTransport::InBandWithOpeningProof => 0,
        OracleAuxiliaryTransport::SeparateAuxiliaryProof => 1,
    }
}

/// Canonical encoding of an oracle-commitment spec: `0`, or `1` followed by
/// the perfect claim's encoding; the five shape counts and four payload
/// counts (u64 LE each); the security-level byte and the transport byte.
pub open spec fn oracle_commitment_bytes(spec: ShroudOracleCommitmentSpec) -> Seq<u8> {
    let shape = spec.spec_shape();
    let payload = spec.spec_payload();
    let claim_part = match spec.spec_perfect_claim() {
        Some(claim) => seq![1u8] + perfect_claim_bytes(claim),
        None => seq![0u8],
    };
    claim_part + le64(shape.spec_committed_oracles()) + le64(shape.spec_queried_rows()) + le64(
        shape.spec_row_width(),
    ) + le64(shape.spec_authentication_items_per_query()) + le64(
        shape.spec_hidden_hiding_witness_items_per_query(),
    ) + le64(payload.spec_public_commitments()) + le64(payload.spec_public_row_values()) + le64(
        payload.spec_public_authentication_items(),
    ) + le64(payload.spec_hidden_hiding_witness_items()) + seq![
        security_level_byte(spec.spec_security_level()),
        oracle_transport_byte(payload.spec_auxiliary_transport()),
    ]
}

impl TranscriptBindable for ShroudOracleCommitmentSpec {
    /// Encodes all five shape fields, derived payload counts, security level,
    /// and auxiliary transport.
    fn to_transcript_binding(&self) -> (b: TranscriptBinding)
        ensures
            b.label_view() == DOMAIN_ORACLE_COMMITMENT@,
            b.bytes_view() == oracle_commitment_bytes(*self),
    {
        let shape = self.shape();
        let mut bytes: Vec<u8> = Vec::new();
        match self.perfect_claim() {
            Some(claim) => {
                bytes.push(1);
                let claim_bytes = claim.to_canonical_bytes();
                append_bytes(&mut bytes, claim_bytes.as_slice());
            },
            None => bytes.push(0),
        }
        push_le64(&mut bytes, shape.committed_oracles());
        push_le64(&mut bytes, shape.queried_rows());
        push_le64(&mut bytes, shape.row_width());
        push_le64(&mut bytes, shape.authentication_items_per_query());
        push_le64(&mut bytes, shape.hidden_hiding_witness_items_per_query());
        let payload = self.payload();
        push_le64(&mut bytes, payload.public_commitments());
        push_le64(&mut bytes, payload.public_row_values());
        push_le64(&mut bytes, payload.public_authentication_items());
        push_le64(&mut bytes, payload.hidden_hiding_witness_items());
        bytes.push(security_level_discriminant(self.security_level()));
        bytes.push(auxiliary_transport_discriminant(self.auxiliary_transport()));
        assert(bytes@ =~= oracle_commitment_bytes(*self));
        TranscriptBinding::new(DOMAIN_ORACLE_COMMITMENT, bytes)
    }
}

/// A statistical spec's binding is 75 bytes and ends with the statistical
/// and in-band discriminants when its transport is in-band.
pub proof fn law_statistical_oracle_binding_length(spec: ShroudOracleCommitmentSpec)
    requires
        spec.spec_perfect_claim() is None,
    ensures
        oracle_commitment_bytes(spec).len() == 75,
{
    let shape = spec.spec_shape();
    let payload = spec.spec_payload();
    crate::bytes::lemma_le64_facts(shape.spec_committed_oracles(), 0);
    crate::bytes::lemma_le64_facts(shape.spec_queried_rows(), 0);
    crate::bytes::lemma_le64_facts(shape.spec_row_width(), 0);
    crate::bytes::lemma_le64_facts(shape.spec_authentication_items_per_query(), 0);
    crate::bytes::lemma_le64_facts(shape.spec_hidden_hiding_witness_items_per_query(), 0);
    crate::bytes::lemma_le64_facts(payload.spec_public_commitments(), 0);
    crate::bytes::lemma_le64_facts(payload.spec_public_row_values(), 0);
    crate::bytes::lemma_le64_facts(payload.spec_public_authentication_items(), 0);
    crate::bytes::lemma_le64_facts(payload.spec_hidden_hiding_witness_items(), 0);
}

/// Human-readable rendering of an oracle-commitment error.
pub open spec fn oracle_commitment_error_text(e: OracleCommitmentError) -> Seq<char> {
    match e {
        OracleCommitmentError::ZeroCommittedOracles => "oracle commitment must contain at least one commitment object"@,
        OracleCommitmentError::ZeroQueriedRows => "oracle commitment must open at least one queried row"@,
        OracleCommitmentError::ZeroRowWidth => "oracle commitment rows must expose at least one value"@,
        OracleCommitmentError::ZeroAuthenticationItemsPerQuery => "oracle commitment must expose at least one authentication item per queried row"@,
        OracleCommitmentError::ZeroHiddenWitnessItemsPerQuery => "oracle commitment must carry at least one hidden witness item per queried row"@,
        OracleCommitmentError::PerfectRequiresClaim => "perfect oracle-commitment specs must carry a validated PerfectClaim"@,
        OracleCommitmentError::PerfectClaimOnStatisticalSpec => "statistical oracle-commitment specs must not carry a PerfectClaim"@,
        OracleCommitmentError::PerfectClaim(err) => crate::claim::perfect_claim_error_text(err),
        OracleCommitmentError::PerfectClaimQueryBudgetTooSmall {
            claim_query_budget,
            required_query_budget,
        } => "perfect oracle-commitment claim query budget ("@ + decimal(claim_query_budget as nat)
            + ") does not cover the required queried-row count ("@ + decimal(
            required_query_budget as nat,
        ) + ")"@,
        OracleCommitmentError::PublicRowValuesOverflow { queried_rows, row_width } =>
            "oracle commitment public row value count overflows usize: queried_rows ("@ + decimal(
            queried_rows as nat,
        ) + ") * row_width ("@ + decimal(row_width as nat) + ")"@,
        OracleCommitmentError::PublicAuthenticationItemsOverflow {
            queried_rows,
            authentication_items_per_query,
        } => "oracle commitment public authentication count overflows usize: queried_rows ("@
            + decimal(queried_rows as nat) + ") * authentication_items_per_query ("@ + decimal(
            authentication_items_per_query as nat,
        ) + ")"@,
        OracleCommitmentError::HiddenWitnessItemsOverflow {
            queried_rows,
            hidden_hiding_witness_items_per_query,
        } => "oracle commitment hidden witness count overflows usize: queried_rows ("@ + decimal(
            queried_rows as nat,
        ) + ") * hidden_hiding_witness_items_per_query ("@ + decimal(
            hidden_hiding_witness_items_per_query as nat,
        ) + ")"@,
        OracleCommitmentError::PayloadShapeMismatch => "oracle commitment payload no longer matches its shape"@,
    }
}

impl OracleCommitmentError {
    /// Human-readable description of this error.
    pub fn message(&self) -> (r: String)
        ensures
            r@ == oracle_commitment_error_text(*self),
    {
        match self {
            OracleCommitmentError::ZeroCommittedOracles => String::from_str(
                "oracle commitment must contain at least one commitment object",
            ),
            OracleCommitmentError::ZeroQueriedRows => String::from_str(
                "oracle commitment must open at least one queried row",
            ),
            OracleCommitmentError::ZeroRowWidth => String::from_str(
                "oracle commitment rows must expose at least one value",
            ),
            OracleCommitmentError::ZeroAuthenticationItemsPerQuery => String::from_str(
                "oracle commitment must expose at least one authentication item per queried row",
            ),
            OracleCommitmentError::ZeroHiddenWitnessItemsPerQuery => String::from_str(
                "oracle commitment must carry at least one hidden witness item per queried row",
            ),
            OracleCommitmentError::PerfectRequiresClaim => String::from_str(
                "perfect oracle-commitment specs must carry a validated PerfectClaim",
            ),
            OracleCommitmentError::PerfectClaimOnStatisticalSpec => String::from_str(
                "statistical oracle-commitment specs must not carry a PerfectClaim",
            ),
            OracleCommitmentError::PerfectClaim(err) => err.message(),
            OracleCommitmentError::PerfectClaimQueryBudgetTooSmall {
                claim_query_budget,
                required_query_budget,
            } => {
                let mut s = String::from_str("perfect oracle-commitment claim query budget (");
                push_decimal(&mut s, *claim_query_budget as u64);
                s.append(") does not cover the required queried-row count (");
                push_decimal(&mut s, *required_query_budget as u64);
                s.append(")");
                s
            },
            OracleCommitmentError::PublicRowValuesOverflow { queried_rows, row_width } => {
                let mut s = String::from_str(
                    "oracle commitment public row value count overflows usize: queried_rows (",
                );
                push_decimal(&mut s, *queried_rows as u64);
                s.append(") * row_width (");
                push_decimal(&mut s, *row_width as u64);
                s.append(")");
                s
            },
            OracleCommitmentError::PublicAuthenticationItemsOverflow {
                queried_rows,
                authentication_items_per_query,
            } => {
                let mut s = String::from_str(
                    "oracle commitment public authentication count overflows usize: queried_rows (",
                );
                push_decimal(&mut s, *queried_rows as u64);
                s.append(") * authentication_items_per_query (");
                push_decimal(&mut s, *authentication_items_per_query as u64);
                s.append(")");
                s
            },
            OracleCommitmentError::HiddenWitnessItemsOverflow {
                queried_rows,
                hidden_hiding_witness_items_per_query,
            } => {
                let mut s = String::from_str(
                    "oracle commitment hidden witness count overflows usize: queried_rows (",
                );
                push_decimal(&mut s, *queried_rows as u64);
                s.append(") * hidden_hiding_witness_items_per_query (");
                push_decimal(&mut s, *hidden_hiding_witness_items_per_query as u64);
                s.append(")");
                s
            },
            OracleCommitmentError::PayloadShapeMismatch => String::from_str(
                "oracle commitment payload no longer matches its shape",
            ),
        }
    }
}

} // verus!
