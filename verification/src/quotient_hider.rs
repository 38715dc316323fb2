//! SHROUD object for hiding quotient commitments and quotient-opening structure.
//!
//! `SecurityLevel` records the claimed hiding level of the quotient-hiding
//! object; it does not force one auxiliary transport. The object exposes both
//! the quotient decomposition family and the claimed query budget, because
//! SHROUD treats both as first-class contract items.
use vstd::prelude::*;
use crate::binding::{TranscriptBindable, TranscriptBinding, DOMAIN_DEGREE_CONTRACT};
use crate::bytes::{le64, push_le64};
use crate::degree::{sat_add, sat_mul, saturating_mul_usize};
use crate::security::SecurityLevel;
use crate::text::{decimal, push_decimal};

verus! {

/// Quotient decomposition family supported by the hiding transform.
#[derive(Clone, Copy, Debug, PartialEq, Eq, Structural)]
pub enum QuotientDecompositionFamily {
    /// A single monolithic quotient object is committed and opened.
    Monolithic,
    /// The quotient is split into degree-bounded chunks or pieces.
    DegreeChunked,
    /// The quotient uses a segmented backend-specific decomposition family.
    Segmented,
}

/// How hidden quotient witness material is transported through the outer proof.
#[derive(Clone, Copy, Debug, PartialEq, Eq, Structural)]
pub enum QuotientAuxiliaryTransport {
    /// Hidden quotient auxiliaries stay in-band with the opening proof.
    InBandWithOpeningProof,
    /// Hidden quotient auxiliaries move in a separate proof envelope or field.
    SeparateAuxiliaryProof,
}

/// Error raised when a quotient-hider object violates a SHROUD invariant.
#[derive(Clone, Copy, Debug, PartialEq, Eq, Structural)]
pub enum QuotientHiderError {
    /// A quotient-hider object must contain at least one quotient component.
    ZeroDecompositionComponents,
    /// A quotient-hider object must open at least one point.
    ZeroOpeningPoints,
    /// Each opening point must reveal at least one public quotient evaluation.
    ZeroOpeningsPerPoint,
    /// Each opening point must carry at least one hidden mask value.
    ZeroHiddenMaskValuesPerPoint,
    /// A quotient-hider object must carry at least one hidden normalization item.
    ZeroHiddenNormalizationItems,
    /// The query budget must be at least one.
    ZeroQueryBudget,
    /// A monolithic decomposition must expose exactly one quotient component.
    MonolithicRequiresSingleComponent {
        /// Number of components actually supplied.
        observed: usize,
    },
    /// The opening surface exceeds the claimed query budget.
    OpeningPointsExceedQueryBudget {
        /// Query budget claimed by the object.
        query_budget: usize,
        /// Opening points requested by the shape.
        opening_points: usize,
    },
    /// The derived payload no longer matches the validated shape.
    PayloadShapeMismatch,
    /// A degree-chunked decomposition requires a degree contract.
    DegreeChunkedRequiresDegreeContract,
    /// The masking degree exceeds the randomized chunk degree bound.
    DegreeContractViolation {
        /// Degree of `q_i(X)` before masking.
        quotient_chunk_degree: usize,
        /// Degree of the vanishing polynomial factor; 0 for plain additive.
        vanishing_poly_degree: usize,
        /// Degree of the mask polynomial.
        mask_poly_degree: usize,
        /// Caller-supplied committed degree bound.
        randomized_chunk_degree_bound: usize,
        /// Actual required committed degree:
        /// `max(quotient_chunk_degree, vanishing_poly_degree + mask_poly_degree)`.
        required_degree: usize,
    },
}

/// The committed degree a vanishing-factor mask requires:
/// `max(quotient_chunk_degree, vanishing_poly_degree + mask_poly_degree)`,
/// with the sum saturating.
pub open spec fn required_committed_degree(
    quotient_chunk_degree: usize,
    vanishing_poly_degree: usize,
    mask_poly_degree: usize,
) -> usize {
    let combined = sat_add(vanishing_poly_degree, mask_poly_degree);
    if quotient_chunk_degree >= combined {
        quotient_chunk_degree
    } else {
        combined
    }
}

/// Degree compatibility contract for a quotient decomposition.
///
/// Invariant: the committed bound holds the required committed degree,
/// `max(quotient_chunk_degree, vanishing_poly_degree + mask_poly_degree)
/// <= randomized_chunk_degree_bound`.
#[derive(Clone, Copy, Debug, PartialEq, Eq, Structural)]
pub struct QuotientDegreeContract {
    quotient_chunk_degree: usize,
    vanishing_poly_degree: usize,
    mask_poly_degree: usize,
    randomized_chunk_degree_bound: usize,
}

impl QuotientDegreeContract {
    /// Degree of `q_i(X)` before masking.
    pub closed spec fn spec_quotient_chunk_degree(self) -> usize {
        self.quotient_chunk_degree
    }

    /// Degree of the vanishing factor.
    pub closed spec fn spec_vanishing_poly_degree(self) -> usize {
        self.vanishing_poly_degree
    }

    /// Degree of the mask polynomial.
    pub closed spec fn spec_mask_poly_degree(self) -> usize {
        self.mask_poly_degree
    }

    /// Committed degree bound.
    pub closed spec fn spec_randomized_chunk_degree_bound(self) -> usize {
        self.randomized_chunk_degree_bound
    }

    /// The contract's invariant: the committed bound holds the required degree.
    pub open spec fn wf(self) -> bool {
        required_committed_degree(
            self.spec_quotient_chunk_degree(),
            self.spec_vanishing_poly_degree(),
            self.spec_mask_poly_degree(),
        ) <= self.spec_randomized_chunk_degree_bound()
    }

    /// Builds a plain-additive degree contract: `q_i(X) + r_i(X)`.
    ///
    /// Accepts iff `mask_poly_degree <= quotient_chunk_degree`; the committed
    /// degree then equals the original chunk degree.
    pub fn new(quotient_chunk_degree: usize, mask_poly_degree: usize) -> (r: Result<Self, QuotientHiderError>)
        ensures
            r is Ok <==> mask_poly_degree <= quotient_chunk_degree,
            r matches Ok(c) ==> {
                &&& c.spec_quotient_chunk_degree() == quotient_chunk_degree
                &&& c.spec_vanishing_poly_degree() == 0
                &&& c.spec_mask_poly_degree() == mask_poly_degree
                &&& c.spec_randomized_chunk_degree_bound() == quotient_chunk_degree
                &&& c.wf()
            },
            r matches Err(e) ==> e == (QuotientHiderError::DegreeContractViolation {
                quotient_chunk_degree,
                vanishing_poly_degree: 0,
                mask_poly_degree,
                randomized_chunk_degree_bound: quotient_chunk_degree,
                required_degree: mask_poly_degree,
            }),
    {
        if mask_poly_degree > quotient_chunk_degree {
            return Err(
                QuotientHiderError::DegreeContractViolation {
                    quotient_chunk_degree,
                    vanishing_poly_degree: 0,
                    mask_poly_degree,
                    randomized_chunk_degree_bound: quotient_chunk_degree,
                    required_degree: mask_poly_degree,
                },
            );
        }
        Ok(
            QuotientDegreeContract {
                quotient_chunk_degree,
                vanishing_poly_degree: 0,
                mask_poly_degree,
                randomized_chunk_degree_bound: quotient_chunk_degree,
            },
        )
    }

    /// Builds a vanishing-factor degree contract: `q_i(X) + v_{H_i}(X) · t_i(X)`.
    ///
    /// Accepts iff `max(quotient_chunk_degree, vanishing_poly_degree +
    /// mask_poly_degree) <= randomized_chunk_degree_bound`.
    pub fn with_vanishing_poly(
        quotient_chunk_degree: usize,
        vanishing_poly_degree: usize,
        mask_poly_degree: usize,
        randomized_chunk_degree_bound: usize,
    ) -> (r: Result<Self, QuotientHiderError>)
        ensures
            r is Ok <==> required_committed_degree(
                quotient_chunk_degree,
                vanishing_poly_degree,
                mask_poly_degree,
            ) <= randomized_chunk_degree_bound,
            r is Ok <==> (quotient_chunk_degree <= randomized_chunk_degree_bound && (vanishing_poly_degree
                + mask_poly_degree <= randomized_chunk_degree_bound || randomized_chunk_degree_bound
                == usize::MAX)),
            r matches Err(QuotientHiderError::DegreeContractViolation { required_degree, .. })
                ==> required_degree >= quotient_chunk_degree && required_degree > randomized_chunk_degree_bound,
            r matches Ok(c) ==> {
                &&& c.spec_quotient_chunk_degree() == quotient_chunk_degree
                &&& c.spec_vanishing_poly_degree() == vanishing_poly_degree
                &&& c.spec_mask_poly_degree() == mask_poly_degree
                &&& c.spec_randomized_chunk_degree_bound() == randomized_chunk_degree_bound
                &&& c.wf()
            },
            r matches Err(e) ==> e == (QuotientHiderError::DegreeContractViolation {
                quotient_chunk_degree,
                vanishing_poly_degree,
                mask_poly_degree,
                randomized_chunk_degree_bound,
                required_degree: required_committed_degree(
                    quotient_chunk_degree,
                    vanishing_poly_degree,
                    mask_poly_degree,
                ),
            }),
    {
        let combined = vanishing_poly_degree.saturating_add(mask_poly_degree);
        let required = if quotient_chunk_degree >= combined {
            quotient_chunk_degree
        } else {
            combined
        };
        if required > randomized_chunk_degree_bound {
            return Err(
                QuotientHiderError::DegreeContractViolation {
                    quotient_chunk_degree,
                    vanishing_poly_degree,
                    mask_poly_degree,
                    randomized_chunk_degree_bound,
                    required_degree: required,
                },
            );
        }
        Ok(
            QuotientDegreeContract {
                quotient_chunk_degree,
                vanishing_poly_degree,
                mask_poly_degree,
                randomized_chunk_degree_bound,
            },
        )
    }

    /// Degree of `q_i(X)` before masking.
    pub fn quotient_chunk_degree(self) -> (r: usize)
        ensures
            r == self.spec_quotient_chunk_degree(),
    {
        self.quotient_chunk_degree
    }

    /// Degree of the vanishing polynomial factor `v_{H_i}(X)`; zero for plain additive hiding.
    pub fn vanishing_poly_degree(self) -> (r: usize)
        ensures
            r == self.spec_vanishing_poly_degree(),
    {
        self.vanishing_poly_degree
    }

    /// Degree of the mask polynomial (`r_i` for plain additive, `t_i` for vanishing-factor).
    pub fn mask_poly_degree(self) -> (r: usize)
        ensures
            r == self.spec_mask_poly_degree(),
    {
        self.mask_poly_degree
    }

    /// Degree bound of the masked quotient chunk as committed.
    pub fn randomized_chunk_degree_bound(self) -> (r: usize)
        ensures
            r == self.spec_randomized_chunk_degree_bound(),
    {
        self.randomized_chunk_degree_bound
    }

    /// Alias for [`randomized_chunk_degree_bound`](Self::randomized_chunk_degree_bound).
    pub fn masked_chunk_degree_bound(self) -> (r: usize)
        ensures
            r == self.spec_randomized_chunk_degree_bound(),
    {
        self.randomized_chunk_degree_bound
    }

    /// Returns `true` when the committed degree equals the original chunk degree.
    pub fn preserves_chunk_degree_class(self) -> (r: bool)
        ensures
            r == (self.spec_randomized_chunk_degree_bound() == self.spec_quotient_chunk_degree()),
    {
        self.randomized_chunk_degree_bound == self.quotient_chunk_degree
    }

    /// Human-readable description of this contract.
    pub fn message(self) -> (r: String)
        ensures
            r@ == degree_contract_text(self),
    {
        let mut s = String::from_str("quotient chunk ");
        push_decimal(&mut s, self.quotient_chunk_degree as u64);
        if self.vanishing_poly_degree == 0 {
            s.append(" + mask ");
            push_decimal(&mut s, self.mask_poly_degree as u64);
        } else {
            s.append(", vanishing(");
            push_decimal(&mut s, self.vanishing_poly_degree as u64);
            s.append(") * mask(");
            push_decimal(&mut s, self.mask_poly_degree as u64);
            s.append(")");
        }
        s.append(" → committed bound ");
        push_decimal(&mut s, self.randomized_chunk_degree_bound as u64);
        s
    }
}

/// Every accepted degree contract holds the quotient chunk and the masked
/// vanishing term: `quotient_chunk_degree <= bound` and `vanishing_poly_degree
/// + mask_poly_degree <= bound` (the sum saturating only at the largest
/// `usize` bound).
pub proof fn law_degree_contract_bounds(c: QuotientDegreeContract)
    requires
        c.wf(),
    ensures
        c.spec_quotient_chunk_degree() <= c.spec_randomized_chunk_degree_bound(),
        c.spec_vanishing_poly_degree() + c.spec_mask_poly_degree() <= c.spec_randomized_chunk_degree_bound()
            || c.spec_randomized_chunk_degree_bound() == usize::MAX,
{
}

/// The query budget bounds the opening points, not the opened values: with
/// a non-zero budget, the quotient-hider rules reject with
/// `OpeningPointsExceedQueryBudget` exactly when `opening_points >
/// query_budget`, whatever `openings_per_point` is, and raising an
/// accepted budget keeps it accepted.
pub proof fn law_quotient_query_budget_bounds_points(
    decomposition_family: QuotientDecompositionFamily,
    query_budget: usize,
    higher_budget: usize,
    shape: QuotientHiderShape,
    degree_contract: Option<QuotientDegreeContract>,
)
    requires
        0 < query_budget <= higher_budget,
    ensures
        (quotient_hider_rules(decomposition_family, query_budget, shape, degree_contract) matches Err(
            QuotientHiderError::OpeningPointsExceedQueryBudget { .. },
        )) <==> shape.spec_opening_points() > query_budget,
        shape.spec_opening_points() > query_budget ==> quotient_hider_rules(
            decomposition_family,
            query_budget,
            shape,
            degree_contract,
        ) == Err::<(), QuotientHiderError>(
            QuotientHiderError::OpeningPointsExceedQueryBudget {
                query_budget,
                opening_points: shape.spec_opening_points(),
            },
        ),
        quotient_hider_rules(decomposition_family, query_budget, shape, degree_contract) is Ok
            ==> quotient_hider_rules(decomposition_family, higher_budget, shape, degree_contract) is Ok,
{
}

/// Human-readable rendering of a degree contract.
pub open spec fn degree_contract_text(c: QuotientDegreeContract) -> Seq<char> {
    let middle = if c.spec_vanishing_poly_degree() == 0 {
        " + mask "@ + decimal(c.spec_mask_poly_degree() as nat)
    } else {
        ", vanishing("@ + decimal(c.spec_vanishing_poly_degree() as nat) + ") * mask("@ + decimal(
            c.spec_mask_poly_degree() as nat,
        ) + ")"@
    };
    "quotient chunk "@ + decimal(c.spec_quotient_chunk_degree() as nat) + middle
        + " → committed bound "@ + decimal(c.spec_randomized_chunk_degree_bound() as nat)
}

/// Every plain-additive contract preserves the chunk degree class.
pub proof fn law_plain_additive_preserves_degree_class(c: QuotientDegreeContract)
    requires
        c.spec_vanishing_poly_degree() == 0,
        c.spec_randomized_chunk_degree_bound() == c.spec_quotient_chunk_degree(),
        c.wf(),
    ensures
        c.spec_mask_poly_degree() <= c.spec_quotient_chunk_degree(),
{
}

/// Canonical encoding of a degree contract: the four degrees as u64 LE, in
/// field order (32 bytes).
pub open spec fn degree_contract_bytes(c: QuotientDegreeContract) -> Seq<u8> {
    le64(c.spec_quotient_chunk_degree()) + le64(c.spec_vanishing_poly_degree()) + le64(
        c.spec_mask_poly_degree(),
    ) + le64(c.spec_randomized_chunk_degree_bound())
}

impl TranscriptBindable for QuotientDegreeContract {
    /// Encodes all four degree fields as u64 LE (32 bytes total).
    fn to_transcript_binding(&self) -> (b: TranscriptBinding)
        ensures
            b.label_view() == DOMAIN_DEGREE_CONTRACT@,
            b.bytes_view() == degree_contract_bytes(*self),
    {
        let mut bytes: Vec<u8> = Vec::new();
        push_le64(&mut bytes, self.quotient_chunk_degree);
        push_le64(&mut bytes, self.vanishing_poly_degree);
        push_le64(&mut bytes, self.mask_poly_degree);
        push_le64(&mut bytes, self.randomized_chunk_degree_bound);
        assert(bytes@ =~= degree_contract_bytes(*self));
        TranscriptBinding::new(DOMAIN_DEGREE_CONTRACT, bytes)
    }
}

/// Distinct degree contracts have distinct canonical encodings.
pub proof fn law_degree_contract_bytes_injective(a: QuotientDegreeContract, b: QuotientDegreeContract)
    requires
        degree_contract_bytes(a) == degree_contract_bytes(b),
    ensures
        a.spec_quotient_chunk_degree() == b.spec_quotient_chunk_degree(),
        a.spec_vanishing_poly_degree() == b.spec_vanishing_poly_degree(),
        a.spec_mask_poly_degree() == b.spec_mask_poly_degree(),
        a.spec_randomized_chunk_degree_bound() == b.spec_randomized_chunk_degree_bound(),
{
    crate::bytes::lemma_le64_concat4_split(
        a.spec_quotient_chunk_degree(),
        a.spec_vanishing_poly_degree(),
        a.spec_mask_poly_degree(),
        a.spec_randomized_chunk_degree_bound(),
        b.spec_quotient_chunk_degree(),
        b.spec_vanishing_poly_degree(),
        b.spec_mask_poly_degree(),
        b.spec_randomized_chunk_degree_bound(),
    );
}

/// Shape of the hidden quotient-opening surface. Every count is non-zero.
#[derive(Clone, Copy, Debug, PartialEq, Eq, Structural)]
pub struct QuotientHiderShape {
    decomposition_components: usize,
    opening_points: usize,
    openings_per_point: usize,
    hidden_mask_values_per_point: usize,
    hidden_normalization_items: usize,
}

/// The verdict on a proposed quotient-hider shape: the first zero count, in
/// parameter order, is rejected.
pub open spec fn quotient_shape_verdict(
    decomposition_components: usize,
    opening_points: usize,
    openings_per_point: usize,
    hidden_mask_values_per_point: usize,
    hidden_normalization_items: usize,
) -> Result<(), QuotientHiderError> {
    if decomposition_components == 0 {
        Err(QuotientHiderError::ZeroDecompositionComponents)
    } else if opening_points == 0 {
        Err(QuotientHiderError::ZeroOpeningPoints)
    } else if openings_per_point == 0 {
        Err(QuotientHiderError::ZeroOpeningsPerPoint)
    } else if hidden_mask_values_per_point == 0 {
        Err(QuotientHiderError::ZeroHiddenMaskValuesPerPoint)
    } else if hidden_normalization_items == 0 {
        Err(QuotientHiderError::ZeroHiddenNormalizationItems)
    } else {
        Ok(())
    }
}

impl QuotientHiderShape {
    /// Number of committed quotient components.
    pub closed spec fn spec_decomposition_components(self) -> usize {
        self.decomposition_components
    }

    /// Number of queried opening points.
    pub closed spec fn spec_opening_points(self) -> usize {
        self.opening_points
    }

    /// Public quotient evaluations per opening point.
    pub closed spec fn spec_openings_per_point(self) -> usize {
        self.openings_per_point
    }

    /// Hidden quotient-mask values per opening point.
    pub closed spec fn spec_hidden_mask_values_per_point(self) -> usize {
        self.hidden_mask_values_per_point
    }

    /// Hidden normalization items.
    pub closed spec fn spec_hidden_normalization_items(self) -> usize {
        self.hidden_normalization_items
    }

    /// Builds a validated quotient-hider shape.
    pub fn new(
        decomposition_components: usize,
        opening_points: usize,
        openings_per_point: usize,
        hidden_mask_values_per_point: usize,
        hidden_normalization_items: usize,
    ) -> (r: Result<Self, QuotientHiderError>)
        ensures
            ({
                let verdict = quotient_shape_verdict(
                    decomposition_components,
                    opening_points,
                    openings_per_point,
                    hidden_mask_values_per_point,
                    hidden_normalization_items,
                );
                &&& r is Ok <==> verdict is Ok
                &&& r matches Err(e) ==> verdict == Err::<(), QuotientHiderError>(e)
                &&& r matches Ok(s) ==> {
                    &&& s.spec_decomposition_components() == decomposition_components
                    &&& s.spec_opening_points() == opening_points
                    &&& s.spec_openings_per_point() == openings_per_point
                    &&& s.spec_hidden_mask_values_per_point() == hidden_mask_values_per_point
                    &&& s.spec_hidden_normalization_items() == hidden_normalization_items
                }
            }),
    {
        if decomposition_components == 0 {
            return Err(QuotientHiderError::ZeroDecompositionComponents);
        }
        if opening_points == 0 {
            return Err(QuotientHiderError::ZeroOpeningPoints);
        }
        if openings_per_point == 0 {
            return Err(QuotientHiderError::ZeroOpeningsPerPoint);
        }
        if hidden_mask_values_per_point == 0 {
            return Err(QuotientHiderError::ZeroHiddenMaskValuesPerPoint);
        }
        if hidden_normalization_items == 0 {
            return Err(QuotientHiderError::ZeroHiddenNormalizationItems);
        }
        Ok(
            QuotientHiderShape {
                decomposition_components,
                opening_points,
                openings_per_point,
                hidden_mask_values_per_point,
                hidden_normalization_items,
            },
        )
    }

    /// Number of committed quotient components.
    pub fn decomposition_components(self) -> (r: usize)
        ensures
            r == self.spec_decomposition_components(),
    {
        self.decomposition_components
    }

    /// Number of queried opening points used by the verifier.
    pub fn opening_points(self) -> (r: usize)
        ensures
            r == self.spec_opening_points(),
    {
        self.opening_points
    }

    /// Number of public quotient evaluations revealed per opening point.
    pub fn openings_per_point(self) -> (r: usize)
        ensures
            r == self.spec_openings_per_point(),
    {
        self.openings_per_point
    }

    /// Number of hidden quotient-mask values carried per opening point.
    pub fn hidden_mask_values_per_point(self) -> (r: usize)
        ensures
            r == self.spec_hidden_mask_values_per_point(),
    {
        self.hidden_mask_values_per_point
    }

    /// Number of hidden normalization items carried by the proof.
    pub fn hidden_normalization_items(self) -> (r: usize)
        ensures
            r == self.spec_hidden_normalization_items(),
    {
        self.hidden_normalization_items
    }
}

/// Public-vs-hidden surface implied by a quotient-hider object.
#[derive(Clone, Copy, Debug, PartialEq, Eq, Structural)]
pub struct QuotientHiderPayload {
    public_commitments: usize,
    public_opening_values: usize,
    hidden_mask_values: usize,
    hidden_normalization_items: usize,
    auxiliary_transport: QuotientAuxiliaryTransport,
}

impl QuotientHiderPayload {
    /// Public quotient commitments.
    pub closed spec fn spec_public_commitments(self) -> usize {
        self.public_commitments
    }

    /// Public quotient opening values.
    pub closed spec fn spec_public_opening_values(self) -> usize {
        self.public_opening_values
    }

    /// Hidden quotient-mask values.
    pub closed spec fn spec_hidden_mask_values(self) -> usize {
        self.hidden_mask_values
    }

    /// Hidden normalization items.
    pub closed spec fn spec_hidden_normalization_items(self) -> usize {
        self.hidden_normalization_items
    }

    /// Transport of the hidden material.
    pub closed spec fn spec_auxiliary_transport(self) -> QuotientAuxiliaryTransport {
        self.auxiliary_transport
    }

    /// The payload's counts follow from `shape`: one commitment per component,
    /// `points * openings_per_point` public values, `points *
    /// mask_values_per_point` hidden mask values (both saturating), and the
    /// shape's normalization items.
    pub open spec fn matches_shape(self, shape: QuotientHiderShape) -> bool {
        &&& self.spec_public_commitments() == shape.spec_decomposition_components()
        &&& self.spec_public_opening_values() == sat_mul(
            shape.spec_opening_points(),
            shape.spec_openings_per_point(),
        )
        &&& self.spec_hidden_mask_values() == sat_mul(
            shape.spec_opening_points(),
            shape.spec_hidden_mask_values_per_point(),
        )
        &&& self.spec_hidden_normalization_items() == shape.spec_hidden_normalization_items()
    }

    /// Builds a quotient-hider payload from a validated shape.
    pub fn new(shape: QuotientHiderShape, auxiliary_transport: QuotientAuxiliaryTransport) -> (p: Self)
        ensures
            p.matches_shape(shape),
            p.spec_auxiliary_transport() == auxiliary_transport,
    {
        QuotientHiderPayload {
            public_commitments: shape.decomposition_components(),
            public_opening_values: saturating_mul_usize(
                shape.opening_points(),
                shape.openings_per_point(),
            ),
            hidden_mask_values: saturating_mul_usize(
                shape.opening_points(),
                shape.hidden_mask_values_per_point(),
            ),
            hidden_normalization_items: shape.hidden_normalization_items(),
            auxiliary_transport,
        }
    }

    /// Number of public quotient commitments carried by the outer proof.
    pub fn public_commitments(self) -> (r: usize)
        ensures
            r == self.spec_public_commitments(),
    {
        self.public_commitments
    }

    /// Number of public quotient opening values revealed by the outer proof.
    pub fn public_opening_values(self) -> (r: usize)
        ensures
            r == self.spec_public_opening_values(),
    {
        self.public_opening_values
    }

    /// Number of hidden quotient-mask values carried in the proof.
    pub fn hidden_mask_values(self) -> (r: usize)
        ensures
            r == self.spec_hidden_mask_values(),
    {
        self.hidden_mask_values
    }

    /// Number of hidden normalization items carried in the proof.
    pub fn hidden_normalization_items(self) -> (r: usize)
        ensures
            r == self.spec_hidden_normalization_items(),
    {
        self.hidden_normalization_items
    }

    /// Transport used for the hidden quotient auxiliary material.
    pub fn auxiliary_transport(self) -> (r: QuotientAuxiliaryTransport)
        ensures
            r == self.spec_auxiliary_transport(),
    {
        self.auxiliary_transport
    }
}

/// The object-level rules, checked in order: zero budget, opening points
/// over budget, monolithic with several components, degree-chunked without
/// a contract.
pub open spec fn quotient_hider_rules(
    decomposition_family: QuotientDecompositionFamily,
    query_budget: usize,
    shape: QuotientHiderShape,
    degree_contract: Option<QuotientDegreeContract>,
) -> Result<(), QuotientHiderError> {
    if query_budget == 0 {
        Err(QuotientHiderError::ZeroQueryBudget)
    } else if shape.spec_opening_points() > query_budget {
        Err(
            QuotientHiderError::OpeningPointsExceedQueryBudget {
                query_budget,
                opening_points: shape.spec_opening_points(),
            },
        )
    } else if decomposition_family is Monolithic && shape.spec_decomposition_components() != 1 {
        Err(
            QuotientHiderError::MonolithicRequiresSingleComponent {
                observed: shape.spec_decomposition_components(),
            },
        )
    } else if decomposition_family is DegreeChunked && degree_contract is None {
        Err(QuotientHiderError::DegreeChunkedRequiresDegreeContract)
    } else {
        Ok(())
    }
}

/// The verdict of [`ShroudQuotientHiderSpec::validate`]: the object-level
/// rules, then the payload/shape consistency check.
pub open spec fn quotient_hider_verdict(
    decomposition_family: QuotientDecompositionFamily,
    query_budget: usize,
    shape: QuotientHiderShape,
    payload: QuotientHiderPayload,
    degree_contract: Option<QuotientDegreeContract>,
) -> Result<(), QuotientHiderError> {
    match quotient_hider_rules(decomposition_family, query_budget, shape, degree_contract) {
        Err(e) => Err(e),
        Ok(()) => if payload.matches_shape(shape) {
            Ok(())
        } else {
            Err(QuotientHiderError::PayloadShapeMismatch)
        },
    }
}

/// SHROUD object for hidden quotient commitments and openings.
///
/// Invariant: [`quotient_hider_verdict`] accepts its fields.
#[derive(Clone, Copy, Debug, PartialEq, Eq, Structural)]
pub struct ShroudQuotientHiderSpec {
    security_level: SecurityLevel,
    decomposition_family: QuotientDecompositionFamily,
    query_budget: usize,
    shape: QuotientHiderShape,
    payload: QuotientHiderPayload,
    degree_contract: Option<QuotientDegreeContract>,
}

impl ShroudQuotientHiderSpec {
    /// Security level.
    pub closed spec fn spec_security_level(&self) -> SecurityLevel {
        self.security_level
    }

    /// Decomposition family.
    pub closed spec fn spec_decomposition_family(&self) -> QuotientDecompositionFamily {
        self.decomposition_family
    }

    /// Query budget.
    pub closed spec fn spec_query_budget(&self) -> usize {
        self.query_budget
    }

    /// Shape.
    pub closed spec fn spec_shape(&self) -> QuotientHiderShape {
        self.shape
    }

    /// Payload.
    pub closed spec fn spec_payload(&self) -> QuotientHiderPayload {
        self.payload
    }

    /// Degree contract.
    pub closed spec fn spec_degree_contract(&self) -> Option<QuotientDegreeContract> {
        self.degree_contract
    }

    /// The spec's invariant: its fields pass validation.
    pub open spec fn wf(&self) -> bool {
        quotient_hider_verdict(
            self.spec_decomposition_family(),
            self.spec_query_budget(),
            self.spec_shape(),
            self.spec_payload(),
            self.spec_degree_contract(),
        ) is Ok
    }

    /// The spec's fields are exactly the given ones, with the payload derived
    /// from the shape.
    pub open spec fn built_from(
        &self,
        security_level: SecurityLevel,
        decomposition_family: QuotientDecompositionFamily,
        query_budget: usize,
        shape: QuotientHiderShape,
        auxiliary_transport: QuotientAuxiliaryTransport,
        degree_contract: Option<QuotientDegreeContract>,
    ) -> bool {
        &&& self.spec_security_level() == security_level
        &&& self.spec_decomposition_family() == decomposition_family
        &&& self.spec_query_budget() == query_budget
        &&& self.spec_shape() == shape
        &&& self.spec_payload().matches_shape(shape)
        &&& self.spec_payload().spec_auxiliary_transport() == auxiliary_transport
        &&& self.spec_degree_contract() == degree_contract
        &&& self.wf()
    }

    /// Builds a statistical quotient-hider object.
    pub fn statistical(
        decomposition_family: QuotientDecompositionFamily,
        query_budget: usize,
        shape: QuotientHiderShape,
        auxiliary_transport: QuotientAuxiliaryTransport,
        degree_contract: Option<QuotientDegreeContract>,
    ) -> (r: Result<Self, QuotientHiderError>)
        ensures
            Self::construction_outcome(
                r,
                SecurityLevel::Statistical,
                decomposition_family,
                query_budget,
                shape,
                auxiliary_transport,
                degree_contract,
            ),
    {
        Self::new(
            SecurityLevel::Statistical,
            decomposition_family,
            query_budget,
            shape,
            auxiliary_transport,
            degree_contract,
        )
    }

    /// Builds a perfect quotient-hider object.
    pub fn perfect(
        decomposition_family: QuotientDecompositionFamily,
        query_budget: usize,
        shape: QuotientHiderShape,
        auxiliary_transport: QuotientAuxiliaryTransport,
        degree_contract: Option<QuotientDegreeContract>,
    ) -> (r: Result<Self, QuotientHiderError>)
        ensures
            Self::construction_outcome(
                r,
                SecurityLevel::Perfect,
                decomposition_family,
                query_budget,
                shape,
                auxiliary_transport,
                degree_contract,
            ),
    {
        Self::new(
            SecurityLevel::Perfect,
            decomposition_family,
            query_budget,
            shape,
            auxiliary_transport,
            degree_contract,
        )
    }

    /// What a constructor returns: the built spec when the object-level rules
    /// accept, otherwise their error. The payload is derived from the shape,
    /// so the payload/shape check never fires here.
    pub open spec fn construction_outcome(
        r: Result<Self, QuotientHiderError>,
        security_level: SecurityLevel,
        decomposition_family: QuotientDecompositionFamily,
        query_budget: usize,
        shape: QuotientHiderShape,
        auxiliary_transport: QuotientAuxiliaryTransport,
        degree_contract: Option<QuotientDegreeContract>,
    ) -> bool {
        let verdict = quotient_hider_rules(decomposition_family, query_budget, shape, degree_contract);
        &&& r is Ok <==> verdict is Ok
        &&& r matches Err(e) ==> verdict == Err::<(), QuotientHiderError>(e)
        &&& r matches Ok(s) ==> s.built_from(
            security_level,
            decomposition_family,
            query_budget,
            shape,
            auxiliary_transport,
            degree_contract,
        )
    }

    /// Builds a quotient-hider object with an explicit security level.
    pub fn new(
        security_level: SecurityLevel,
        decomposition_family: QuotientDecompositionFamily,
        query_budget: usize,
        shape: QuotientHiderShape,
        auxiliary_transport: QuotientAuxiliaryTransport,
        degree_contract: Option<QuotientDegreeContract>,
    ) -> (r: Result<Self, QuotientHiderError>)
        ensures
            Self::construction_outcome(
                r,
                security_level,
                decomposition_family,
                query_budget,
                shape,
                auxiliary_transport,
                degree_contract,
            ),
            query_budget > 0 ==> ((r matches Err(QuotientHiderError::OpeningPointsExceedQueryBudget { .. }))
                <==> shape.spec_opening_points() > query_budget),
            r is Ok <==> (0 < query_budget && shape.spec_opening_points() <= query_budget && (decomposition_family
                is Monolithic ==> shape.spec_decomposition_components() == 1) && (decomposition_family
                is DegreeChunked ==> degree_contract is Some)),
            query_budget == 0 ==> r == Err::<Self, QuotientHiderError>(QuotientHiderError::ZeroQueryBudget),
            query_budget > 0 && shape.spec_opening_points() > query_budget ==> r
                == Err::<Self, QuotientHiderError>(
                QuotientHiderError::OpeningPointsExceedQueryBudget {
                    query_budget,
                    opening_points: shape.spec_opening_points(),
                },
            ),
    {
        let payload = QuotientHiderPayload::new(shape, auxiliary_transport);
        let spec = ShroudQuotientHiderSpec {
            security_level,
            decomposition_family,
            query_budget,
            shape,
            payload,
            degree_contract,
        };
        match spec.validate() {
            Ok(()) => Ok(spec),
            Err(e) => Err(e),
        }
    }

    /// Security level implemented by the quotient-hider object.
    pub fn security_level(&self) -> (r: SecurityLevel)
        ensures
            r == self.spec_security_level(),
    {
        self.security_level
    }

    /// Quotient decomposition family supported by the object.
    pub fn decomposition_family(&self) -> (r: QuotientDecompositionFamily)
        ensures
            r == self.spec_decomposition_family(),
    {
        self.decomposition_family
    }

    /// Claimed query budget for the hiding guarantee.
    pub fn query_budget(&self) -> (r: usize)
        ensures
            r == self.spec_query_budget(),
    {
        self.query_budget
    }

    /// Shape of the hidden quotient-opening surface.
    pub fn shape(&self) -> (r: QuotientHiderShape)
        ensures
            r == self.spec_shape(),
    {
        self.shape
    }

    /// Public-vs-hidden payload implied by the quotient-hider object.
    pub fn payload(&self) -> (r: QuotientHiderPayload)
        ensures
            r == self.spec_payload(),
    {
        self.payload
    }

    /// Transport used by the hidden quotient auxiliary material.
    pub fn auxiliary_transport(&self) -> (r: QuotientAuxiliaryTransport)
        ensures
            r == self.spec_payload().spec_auxiliary_transport(),
    {
        self.payload.auxiliary_transport()
    }

    /// Degree compatibility contract, if declared. Required when the
    /// decomposition family is `DegreeChunked`.
    pub fn degree_contract(&self) -> (r: Option<QuotientDegreeContract>)
        ensures
            r == self.spec_degree_contract(),
    {
        self.degree_contract
    }

    /// Validates the shape-level, decomposition-level, and degree-contract invariants.
    pub fn validate(&self) -> (r: Result<(), QuotientHiderError>)
        ensures
            r == quotient_hider_verdict(
                self.spec_decomposition_family(),
                self.spec_query_budget(),
                self.spec_shape(),
                self.spec_payload(),
                self.spec_degree_contract(),
            ),
            self.spec_query_budget() > 0 ==> ((r matches Err(
                QuotientHiderError::OpeningPointsExceedQueryBudget { .. },
            )) <==> self.spec_shape().spec_opening_points() > self.spec_query_budget()),
    {
        if self.query_budget == 0 {
            return Err(QuotientHiderError::ZeroQueryBudget);
        }
        if self.shape.opening_points() > self.query_budget {
            return Err(
                QuotientHiderError::OpeningPointsExceedQueryBudget {
                    query_budget: self.query_budget,
                    opening_points: self.shape.opening_points(),
                },
            );
        }
        if matches!(self.decomposition_family, QuotientDecompositionFamily::Monolithic)
            && self.shape.decomposition_components() != 1 {
            return Err(
                QuotientHiderError::MonolithicRequiresSingleComponent {
                    observed: self.shape.decomposition_components(),
                },
            );
        }
        if matches!(self.decomposition_family, QuotientDecompositionFamily::DegreeChunked)
            && self.degree_contract.is_none() {
            return Err(QuotientHiderError::DegreeChunkedRequiresDegreeContract);
        }
        if self.payload.public_commitments() != self.shape.decomposition_components()
            || self.payload.public_opening_values() != saturating_mul_usize(
            self.shape.opening_points(),
            self.shape.openings_per_point(),
        ) || self.payload.hidden_mask_values() != saturating_mul_usize(
            self.shape.opening_points(),
            self.shape.hidden_mask_values_per_point(),
        ) || self.payload.hidden_normalization_items() != self.shape.hidden_normalization_items() {
            return Err(QuotientHiderError::PayloadShapeMismatch);
        }
        Ok(())
    }
}

/// Human-readable rendering of a quotient-hider error.
pub open spec fn quotient_hider_error_text(e: QuotientHiderError) -> Seq<char> {
    match e {
        QuotientHiderError::ZeroDecompositionComponents => "quotient hider must contain at least one decomposition component"@,
        QuotientHiderError::ZeroOpeningPoints => "quotient hider must open at least one point"@,
        QuotientHiderError::ZeroOpeningsPerPoint => "quotient hider must reveal at least one quotient evaluation per point"@,
        QuotientHiderError::ZeroHiddenMaskValuesPerPoint => "quotient hider must carry at least one hidden mask value per point"@,
        QuotientHiderError::ZeroHiddenNormalizationItems => "quotient hider must carry at least one hidden normalization item"@,
        QuotientHiderError::ZeroQueryBudget => "quotient hider query budget must be at least one"@,
        QuotientHiderError::MonolithicRequiresSingleComponent { observed } =>
            "monolithic quotient decomposition requires exactly one component, observed "@ + decimal(
            observed as nat,
        ),
        QuotientHiderError::OpeningPointsExceedQueryBudget { query_budget, opening_points } =>
            "quotient hider opening points "@ + decimal(opening_points as nat) + " exceed query budget "@
            + decimal(query_budget as nat),
        QuotientHiderError::PayloadShapeMismatch => "quotient hider payload no longer matches its shape"@,
        QuotientHiderError::DegreeChunkedRequiresDegreeContract => "degree-chunked quotient decomposition requires a degree contract; supply QuotientDegreeContract::new(chunk_degree, randomizer_degree)"@,
        QuotientHiderError::DegreeContractViolation {
            quotient_chunk_degree,
            vanishing_poly_degree,
            mask_poly_degree,
            randomized_chunk_degree_bound,
            required_degree,
        } => "masking requires committed degree "@ + decimal(required_degree as nat)
            + " (max of quotient "@ + decimal(quotient_chunk_degree as nat) + " and vanishing("@
            + decimal(vanishing_poly_degree as nat) + ") * mask("@ + decimal(mask_poly_degree as nat)
            + ")) but randomized_chunk_degree_bound is "@ + decimal(
            randomized_chunk_degree_bound as nat,
        )
            + "; for plain q_i + r_i: mask_poly_degree must not exceed quotient_chunk_degree; for q_i + v_H_i*t_i: supply a randomized_chunk_degree_bound large enough to hold max(deg(q_i), deg(v_H_i) + deg(t_i))"@,
    }
}

impl QuotientHiderError {
    /// Human-readable description of this error.
    pub fn message(&self) -> (r: String)
        ensures
            r@ == quotient_hider_error_text(*self),
    {
        match self {
            QuotientHiderError::ZeroDecompositionComponents => String::from_str(
                "quotient hider must contain at least one decomposition component",
            ),
            QuotientHiderError::ZeroOpeningPoints => String::from_str(
                "quotient hider must open at least one point",
            ),
            QuotientHiderError::ZeroOpeningsPerPoint => String::from_str(
                "quotient hider must reveal at least one quotient evaluation per point",
            ),
            QuotientHiderError::ZeroHiddenMaskValuesPerPoint => String::from_str(
                "quotient hider must carry at least one hidden mask value per point",
            ),
            QuotientHiderError::ZeroHiddenNormalizationItems => String::from_str(
                "quotient hider must carry at least one hidden normalization item",
            ),
            QuotientHiderError::ZeroQueryBudget => String::from_str(
                "quotient hider query budget must be at least one",
            ),
            QuotientHiderError::MonolithicRequiresSingleComponent { observed } => {
                let mut s = String::from_str(
                    "monolithic quotient decomposition requires exactly one component, observed ",
                );
                push_decimal(&mut s, *observed as u64);
                s
            },
            QuotientHiderError::OpeningPointsExceedQueryBudget { query_budget, opening_points } => {
                let mut s = String::from_str("quotient hider opening points ");
                push_decimal(&mut s, *opening_points as u64);
                s.append(" exceed query budget ");
                push_decimal(&mut s, *query_budget as u64);
                s
            },
            QuotientHiderError::PayloadShapeMismatch => String::from_str(
                "quotient hider payload no longer matches its shape",
            ),
            QuotientHiderError::DegreeChunkedRequiresDegreeContract => String::from_str(
                "degree-chunked quotient decomposition requires a degree contract; supply QuotientDegreeContract::new(chunk_degree, randomizer_degree)",
            ),
            QuotientHiderError::DegreeContractViolation {
                quotient_chunk_degree,
                vanishing_poly_degree,
                mask_poly_degree,
                randomized_chunk_degree_bound,
                required_degree,
            } => {
                let mut s = String::from_str("masking requires committed degree ");
                push_decimal(&mut s, *required_degree as u64);
                s.append(" (max of quotient ");
                push_decimal(&mut s, *quotient_chunk_degree as u64);
                s.append(" and vanishing(");
                push_decimal(&mut s, *vanishing_poly_degree as u64);
                s.append(") * mask(");
                push_decimal(&mut s, *mask_poly_degree as u64);
                s.append(")) but randomized_chunk_degree_bound is ");
                push_decimal(&mut s, *randomized_chunk_degree_bound as u64);
                s.append(
                    "; for plain q_i + r_i: mask_poly_degree must not exceed quotient_chunk_degree; for q_i + v_H_i*t_i: supply a randomized_chunk_degree_bound large enough to hold max(deg(q_i), deg(v_H_i) + deg(t_i))",
                );
                s
            },
        }
    }
}

} // verus!
