//! Structured justification for a perfect-hiding claim, and the basis
//! descriptor that makes encoded extension-field bundles self-describing.
use vstd::prelude::*;
use crate::bytes::{le64, push_le64};
use crate::text::{decimal, push_decimal};

verus! {

/// Order in which an extension-field element's base-field coordinates are laid out.
#[derive(Clone, Copy, Debug, PartialEq, Eq, Structural)]
pub enum CoordinateOrder {
    /// Coefficients of `1, X, X^2, ...` in increasing degree.
    LittleEndianMonomial,
}

/// Rule used to rebuild an extension-field element from its coordinates.
#[derive(Clone, Copy, Debug, PartialEq, Eq, Structural)]
pub enum ReconstructionRule {
    /// Binomial extension `F[X] / (X^d - W)`, as used by Plonky3's
    /// `BinomialExtensionField`.
    BinomialExtension,
}

/// Self-describing basis for flattening and reconstructing an
/// extension-field randomizer into base-field coordinates.
#[derive(Clone, Copy, Debug, PartialEq, Eq, Structural)]
pub struct BasisDescriptor {
    /// Degree of the extension field over the base field.
    pub extension_degree: usize,
    /// Layout of the coordinates.
    pub coordinate_order: CoordinateOrder,
    /// Reconstruction rule for the extension element.
    pub reconstruction_rule: ReconstructionRule,
}

impl BasisDescriptor {
    /// The Plonky3 `BinomialExtensionField` convention for the given degree.
    pub fn plonky3_binomial(extension_degree: usize) -> (b: Self)
        ensures
            b == (BasisDescriptor {
                extension_degree,
                coordinate_order: CoordinateOrder::LittleEndianMonomial,
                reconstruction_rule: ReconstructionRule::BinomialExtension,
            }),
    {
        BasisDescriptor {
            extension_degree,
            coordinate_order: CoordinateOrder::LittleEndianMonomial,
            reconstruction_rule: ReconstructionRule::BinomialExtension,
        }
    }
}

/// The source of randomness used by a hiding commitment.
#[derive(Clone, Copy, Debug, PartialEq, Eq, Structural)]
pub enum RandomnessModel {
    /// Fresh uniform randomness is sampled per proof from OS entropy.
    UniformPerProof,
    /// A CSPRNG seeded from OS entropy is used per proof.
    CsprngFromOsEntropy,
}

/// Human-readable name of a randomness model.
pub open spec fn randomness_model_text(m: RandomnessModel) -> Seq<char> {
    match m {
        RandomnessModel::UniformPerProof => "uniform per proof"@,
        RandomnessModel::CsprngFromOsEntropy => "CSPRNG from OS entropy"@,
    }
}

impl RandomnessModel {
    /// Human-readable name of this randomness model.
    pub fn label(self) -> (r: &'static str)
        ensures
            r@ == randomness_model_text(self),
    {
        match self {
            RandomnessModel::UniformPerProof => "uniform per proof",
            RandomnessModel::CsprngFromOsEntropy => "CSPRNG from OS entropy",
        }
    }
}

/// The field model used by a perfect-variant randomizer commitment.
#[derive(Clone, Copy, Debug, PartialEq, Eq, Structural)]
pub enum FieldModel {
    /// The randomizer is encoded as base-field coordinates of an extension-field element.
    ///
    /// Perfect ZK holds only when the backend proves the coordinate bundle is
    /// an exact extension-field randomizer, not a loose collection of
    /// base-field columns.
    EncodedCoordinates {
        /// Degree of the extension field over the base field.
        extension_degree: usize,
    },
    /// The randomizer is committed natively as an extension-field element.
    NativeExtension {
        /// Degree of the extension field over the base field.
        extension_degree: usize,
    },
}

/// The extension degree carried by either field-model variant.
pub open spec fn field_model_degree(m: FieldModel) -> usize {
    match m {
        FieldModel::EncodedCoordinates { extension_degree } => extension_degree,
        FieldModel::NativeExtension { extension_degree } => extension_degree,
    }
}

/// Human-readable rendering of a field model.
pub open spec fn field_model_text(m: FieldModel) -> Seq<char> {
    match m {
        FieldModel::EncodedCoordinates { extension_degree } => "encoded coordinates (extension degree "@
            + decimal(extension_degree as nat) + ")"@,
        FieldModel::NativeExtension { extension_degree } => "native extension field (degree "@
            + decimal(extension_degree as nat) + ")"@,
    }
}

impl FieldModel {
    /// Human-readable rendering, naming the model and its extension degree.
    pub fn message(self) -> (r: String)
        ensures
            r@ == field_model_text(self),
    {
        let mut s = String::new();
        match self {
            FieldModel::EncodedCoordinates { extension_degree } => {
                s.append("encoded coordinates (extension degree ");
                push_decimal(&mut s, extension_degree as u64);
                s.append(")");
            },
            FieldModel::NativeExtension { extension_degree } => {
                s.append("native extension field (degree ");
                push_decimal(&mut s, extension_degree as u64);
                s.append(")");
            },
        }
        assert(s@ =~= field_model_text(self));
        s
    }

    /// Returns the extension degree for either field model variant.
    pub fn extension_degree(self) -> (d: usize)
        ensures
            d == field_model_degree(self),
    {
        match self {
            FieldModel::EncodedCoordinates { extension_degree } => extension_degree,
            FieldModel::NativeExtension { extension_degree } => extension_degree,
        }
    }
}

/// The simulator's obligations for a perfect HVZK claim.
#[derive(Clone, Copy, Debug, PartialEq, Eq, Structural)]
pub enum SimulatorObligations {
    /// Honest-verifier setting: the simulator has access to the verifier's challenges.
    HonestVerifierChallengeAccess,
    /// Fully oblivious: the simulator produces a valid transcript without the
    /// witness or the challenges.
    FullyOblivious,
}

/// Human-readable name of the simulator's obligations.
pub open spec fn simulator_obligations_text(o: SimulatorObligations) -> Seq<char> {
    match o {
        SimulatorObligations::HonestVerifierChallengeAccess => "honest-verifier with challenge access"@,
        SimulatorObligations::FullyOblivious => "fully oblivious"@,
    }
}

impl SimulatorObligations {
    /// Human-readable name of these obligations.
    pub fn label(self) -> (r: &'static str)
        ensures
            r@ == simulator_obligations_text(self),
    {
        match self {
            SimulatorObligations::HonestVerifierChallengeAccess => "honest-verifier with challenge access",
            SimulatorObligations::FullyOblivious => "fully oblivious",
        }
    }
}

/// A structured justification for a `SecurityLevel::Perfect` claim.
///
/// The claim is a declared contract that auditors check against the concrete
/// backend. It is internally inconsistent when the query budget is zero or
/// the MMCS is non-hiding: a non-hiding MMCS leaks witness row values on
/// query regardless of how many randomizer columns are appended.
#[derive(Clone, Copy, Debug, PartialEq, Eq, Structural)]
pub struct PerfectClaim {
    /// The source of randomness used by the commitment.
    pub randomness_model: RandomnessModel,
    /// The field model used by the randomizer commitment.
    pub field_model: FieldModel,
    /// The number of verifier queries the hiding guarantee must survive.
    pub query_budget: usize,
    /// The simulator's obligations for this HVZK claim.
    pub simulator_obligations: SimulatorObligations,
    /// Whether the underlying MMCS is also hiding. Must be `true`.
    pub hiding_mmcs: bool,
}

/// Error raised when a `PerfectClaim` is internally inconsistent.
#[derive(Clone, Copy, Debug, PartialEq, Eq, Structural)]
pub enum PerfectClaimError {
    /// The query budget must be at least one.
    ZeroQueryBudget,
    /// Perfect ZK requires a hiding MMCS.
    NonHidingMmcs,
}

/// The consistency verdict for a perfect claim: the zero-budget check comes
/// first, then the hiding-MMCS check.
pub open spec fn perfect_claim_verdict(c: PerfectClaim) -> Result<(), PerfectClaimError> {
    if c.query_budget == 0 {
        Err(PerfectClaimError::ZeroQueryBudget)
    } else if !c.hiding_mmcs {
        Err(PerfectClaimError::NonHidingMmcs)
    } else {
        Ok(())
    }
}

/// Canonical encoding of a perfect claim: randomness byte, field-model byte,
/// extension degree (u64 LE), query budget (u64 LE), simulator byte and
/// hiding-MMCS byte — 20 bytes in all.
pub open spec fn perfect_claim_bytes(c: PerfectClaim) -> Seq<u8> {
    let randomness: u8 = match c.randomness_model {
        RandomnessModel::UniformPerProof => 0,
        RandomnessModel::CsprngFromOsEntropy => 1,
    };
    let model: u8 = match c.field_model {
        FieldModel::EncodedCoordinates { .. } => 0,
        FieldModel::NativeExtension { .. } => 1,
    };
    let simulator: u8 = match c.simulator_obligations {
        SimulatorObligations::HonestVerifierChallengeAccess => 0,
        SimulatorObligations::FullyOblivious => 1,
    };
    let hiding: u8 = if c.hiding_mmcs {
        1
    } else {
        0
    };
    seq![randomness, model] + le64(field_model_degree(c.field_model)) + le64(c.query_budget) + seq![
        simulator,
        hiding,
    ]
}

impl PerfectClaim {
    /// Builds a claim and checks its internal consistency.
    pub fn new(
        randomness_model: RandomnessModel,
        field_model: FieldModel,
        query_budget: usize,
        simulator_obligations: SimulatorObligations,
        hiding_mmcs: bool,
    ) -> (r: Result<Self, PerfectClaimError>)
        ensures
            ({
                let c = PerfectClaim {
                    randomness_model,
                    field_model,
                    query_budget,
                    simulator_obligations,
                    hiding_mmcs,
                };
                match perfect_claim_verdict(c) {
                    Ok(()) => r == Ok::<PerfectClaim, PerfectClaimError>(c),
                    Err(e) => r == Err::<PerfectClaim, PerfectClaimError>(e),
                }
            }),
    {
        let claim = PerfectClaim {
            randomness_model,
            field_model,
            query_budget,
            simulator_obligations,
            hiding_mmcs,
        };
        match claim.validate() {
            Ok(()) => Ok(claim),
            Err(e) => Err(e),
        }
    }

    /// Validates internal consistency of the claim.
    ///
    /// This does not verify the claim against a concrete backend. It only
    /// checks that the declared fields are mutually non-contradictory.
    pub fn validate(&self) -> (r: Result<(), PerfectClaimError>)
        ensures
            r == perfect_claim_verdict(*self),
    {
        if self.query_budget == 0 {
            return Err(PerfectClaimError::ZeroQueryBudget);
        }
        if !self.hiding_mmcs {
            return Err(PerfectClaimError::NonHidingMmcs);
        }
        Ok(())
    }

    /// Returns the canonical byte encoding of this claim.
    pub fn to_canonical_bytes(&self) -> (r: Vec<u8>)
        ensures
            r@ == perfect_claim_bytes(*self),
    {
        let randomness: u8 = match self.randomness_model {
            RandomnessModel::UniformPerProof => 0,
            RandomnessModel::CsprngFromOsEntropy => 1,
        };
        let model: u8 = match self.field_model {
            FieldModel::EncodedCoordinates { .. } => 0,
            FieldModel::NativeExtension { .. } => 1,
        };
        let simulator: u8 = match self.simulator_obligations {
            SimulatorObligations::HonestVerifierChallengeAccess => 0,
            SimulatorObligations::FullyOblivious => 1,
        };
        let hiding: u8 = if self.hiding_mmcs {
            1
        } else {
            0
        };
        let mut out: Vec<u8> = Vec::new();
        out.push(randomness);
        out.push(model);
        push_le64(&mut out, self.field_model.extension_degree());
        push_le64(&mut out, self.query_budget);
        out.push(simulator);
        out.push(hiding);
        assert(out@ =~= perfect_claim_bytes(*self));
        out
    }
}

/// Human-readable rendering of a perfect-claim error.
pub open spec fn perfect_claim_error_text(e: PerfectClaimError) -> Seq<char> {
    match e {
        PerfectClaimError::ZeroQueryBudget => "perfect claim query budget must be at least one"@,
        PerfectClaimError::NonHidingMmcs => "perfect ZK requires a hiding MMCS; a non-hiding MMCS leaks witness values on row queries regardless of polynomial randomization"@,
    }
}

impl PerfectClaimError {
    /// Human-readable description of this error.
    pub fn message(&self) -> (r: String)
        ensures
            r@ == perfect_claim_error_text(*self),
    {
        match self {
            PerfectClaimError::ZeroQueryBudget => String::from_str(
                "perfect claim query budget must be at least one",
            ),
            PerfectClaimError::NonHidingMmcs => String::from_str(
                "perfect ZK requires a hiding MMCS; a non-hiding MMCS leaks witness values on row queries regardless of polynomial randomization",
            ),
        }
    }
}

} // verus!
