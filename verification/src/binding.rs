//! Transcript binding types for SHROUD Fiat-Shamir security.
//!
//! For the Fiat-Shamir transformation to be secure, the challenge hash must
//! bind every public parameter that influences the proof: commitments,
//! protocol parameters, domain labels and the security profile. This module
//! provides the backend-neutral surface for declaring those bindings.
use vstd::prelude::*;
use crate::bytes::{le64, push_le64, append_bytes, copy_bytes};
use crate::claim::{BasisDescriptor, CoordinateOrder, ReconstructionRule};
use crate::security::{SecurityLevel, security_level_byte, security_level_discriminant};
use crate::text::quoted;
use crate::transcript::TranscriptStage;
use vstd::string::StringSliceAdditionalSpecFns;

verus! {

/// Domain label for the SHROUD hiding profile (log-blowup, randomizer count, basis).
pub const DOMAIN_PROFILE: &'static str = "SHROUD_V1_PROFILE";

/// Domain label for the extension-field basis descriptor.
pub const DOMAIN_BASIS: &'static str = "SHROUD_V1_BASIS";

/// Domain label for the oracle-commitment shape and security level.
pub const DOMAIN_ORACLE_COMMITMENT: &'static str = "SHROUD_V1_ORACLE_COMMITMENT";

/// Domain label for a concrete randomizer commitment (e.g. a Merkle root or digest).
pub const DOMAIN_RANDOMIZER_COMMITMENT: &'static str = "SHROUD_V1_RANDOMIZER_COMMITMENT";

/// Domain label for the quotient degree contract.
pub const DOMAIN_DEGREE_CONTRACT: &'static str = "SHROUD_V1_DEGREE_CONTRACT";

/// Domain label for the proof security level (`Statistical` or `Perfect`).
pub const DOMAIN_SECURITY_LEVEL: &'static str = "SHROUD_V1_SECURITY_LEVEL";

/// Domain label for public opening values observed before final verification.
pub const DOMAIN_PUBLIC_OPENINGS: &'static str = "SHROUD_V1_PUBLIC_OPENINGS";

/// Domain label for the batch-opening object.
pub const DOMAIN_BATCH_OPENING: &'static str = "SHROUD_V1_BATCH_OPENING";

/// Domain label for the codeword-embedding object.
pub const DOMAIN_CODEWORD_EMBEDDING: &'static str = "SHROUD_V1_CODEWORD_EMBEDDING";

/// Domain label for the opening-projection object.
pub const DOMAIN_OPENING_PROJECTION: &'static str = "SHROUD_V1_OPENING_PROJECTION";

/// Domain label for the quotient-hider object.
pub const DOMAIN_QUOTIENT_HIDER: &'static str = "SHROUD_V1_QUOTIENT_HIDER";

/// Domain label for the batch-opening degree budget.
pub const DOMAIN_DEGREE_BUDGET: &'static str = "SHROUD_V1_DEGREE_BUDGET";

/// Domain label for a declared hiding technique.
pub const DOMAIN_HIDING_TECHNIQUE: &'static str = "SHROUD_V1_HIDING_TECHNIQUE";

/// Domain label for the hash-suite identifier.
pub const DOMAIN_HASH_ID: &'static str = "SHROUD_V1_HASH_ID";

/// Domain label for a sampled challenge.
pub const DOMAIN_SAMPLED_CHALLENGE: &'static str = "SHROUD_V1_SAMPLED_CHALLENGE";

/// Domain label for a perfect-hiding claim.
pub const DOMAIN_PERFECT_CLAIM: &'static str = "SHROUD_V1_PERFECT_CLAIM";

/// A single transcript absorption event: a domain-separated label and its canonical bytes.
///
/// `domain_label` separates this binding from bindings of other contexts,
/// even when their byte representations coincide. `canonical_bytes` is a
/// little-endian encoding of every field that influences the challenge.
#[derive(Clone, Debug, PartialEq, Eq)]
pub struct TranscriptBinding {
    domain_label: &'static str,
    canonical_bytes: Vec<u8>,
}

impl TranscriptBinding {
    /// The characters of the domain label.
    pub closed spec fn label_view(&self) -> Seq<char> {
        self.domain_label@
    }

    /// The canonical bytes.
    pub closed spec fn bytes_view(&self) -> Seq<u8> {
        self.canonical_bytes@
    }

    /// Creates a transcript binding from an explicit domain label and canonical bytes.
    pub fn new(domain_label: &'static str, canonical_bytes: Vec<u8>) -> (b: Self)
        ensures
            b.label_view() == domain_label@,
            b.bytes_view() == canonical_bytes@,
    {
        TranscriptBinding { domain_label, canonical_bytes }
    }

    /// The domain label separating this binding from others in the same transcript.
    pub fn domain_label(&self) -> (r: &'static str)
        ensures
            r@ == self.label_view(),
    {
        self.domain_label
    }

    /// Canonical byte representation of the bound value.
    pub fn canonical_bytes(&self) -> (r: &[u8])
        ensures
            r@ == self.bytes_view(),
    {
        self.canonical_bytes.as_slice()
    }

    /// Returns a copy of this binding with the same label and bytes.
    pub fn duplicate(&self) -> (b: Self)
        ensures
            b.label_view() == self.label_view(),
            b.bytes_view() == self.bytes_view(),
    {
        TranscriptBinding {
            domain_label: self.domain_label,
            canonical_bytes: copy_bytes(self.canonical_bytes.as_slice()),
        }
    }
}

/// A SHROUD protocol object that can produce a canonical transcript binding.
///
/// Implementors encode every field that influences verifier challenges into a
/// [`TranscriptBinding`] with a stable domain label and little-endian byte
/// encoding.
pub trait TranscriptBindable {
    /// Returns a canonical transcript binding for this object.
    fn to_transcript_binding(&self) -> TranscriptBinding;
}

/// Error raised when a required transcript binding is absent from the record.
#[derive(Clone, Debug, PartialEq, Eq)]
pub enum TranscriptBindingError {
    /// A required domain label was never absorbed into the transcript.
    MissingBinding {
        /// The domain label that was expected but absent.
        domain_label: String,
    },
    /// A binding with the required domain label was absorbed, but its
    /// canonical bytes do not match the expected value.
    BindingMismatch {
        /// The domain label whose bytes did not match.
        domain_label: String,
    },
}

/// Human-readable rendering of a binding error.
pub open spec fn binding_error_text(e: TranscriptBindingError) -> Seq<char> {
    match e {
        TranscriptBindingError::MissingBinding { domain_label } =>
            "required transcript binding is missing: domain label "@ + quoted(domain_label@)
            + " was never absorbed before the challenge was sampled; omitting this binding allows an attacker to replay or substitute the corresponding protocol parameter"@,
        TranscriptBindingError::BindingMismatch { domain_label } =>
            "transcript binding mismatch: a binding for domain label "@ + quoted(domain_label@)
            + " was absorbed, but its canonical bytes do not match the expected value; this may indicate adversarial substitution of a protocol parameter"@,
    }
}

impl TranscriptBindingError {
    /// Returns an identical copy of this error.
    pub fn duplicate(&self) -> (r: Self)
        ensures
            r == *self,
    {
        match self {
            TranscriptBindingError::MissingBinding { domain_label } =>
                TranscriptBindingError::MissingBinding { domain_label: domain_label.clone() },
            TranscriptBindingError::BindingMismatch { domain_label } =>
                TranscriptBindingError::BindingMismatch { domain_label: domain_label.clone() },
        }
    }

    /// Human-readable description of this error; the label is shown in double quotes.
    pub fn message(&self) -> (r: String)
        ensures
            r@ == binding_error_text(*self),
    {
        match self {
            TranscriptBindingError::MissingBinding { domain_label } => {
                let mut s = String::from_str(
                    "required transcript binding is missing: domain label ",
                );
                crate::text::push_quoted(&mut s, domain_label.as_str());
                s.append(
                    " was never absorbed before the challenge was sampled; omitting this binding allows an attacker to replay or substitute the corresponding protocol parameter",
                );
                s
            },
            TranscriptBindingError::BindingMismatch { domain_label } => {
                let mut s = String::from_str(
                    "transcript binding mismatch: a binding for domain label ",
                );
                crate::text::push_quoted(&mut s, domain_label.as_str());
                s.append(
                    " was absorbed, but its canonical bytes do not match the expected value; this may indicate adversarial substitution of a protocol parameter",
                );
                s
            },
        }
    }
}

impl TranscriptBindable for SecurityLevel {
    /// Encodes the security level as a single byte: `0` = Statistical, `1` = Perfect.
    fn to_transcript_binding(&self) -> (b: TranscriptBinding)
        ensures
            b.label_view() == DOMAIN_SECURITY_LEVEL@,
            b.bytes_view() == seq![security_level_byte(*self)],
    {
        let mut bytes: Vec<u8> = Vec::new();
        bytes.push(security_level_discriminant(*self));
        assert(bytes@ =~= seq![security_level_byte(*self)]);
        TranscriptBinding::new(DOMAIN_SECURITY_LEVEL, bytes)
    }
}

/// Canonical encoding of a basis descriptor: the extension degree (u64 LE)
/// followed by the coordinate-order and reconstruction-rule discriminants.
pub open spec fn basis_bytes(b: BasisDescriptor) -> Seq<u8> {
    le64(b.extension_degree) + seq![0u8, 0u8]
}

impl TranscriptBindable for BasisDescriptor {
    /// Encodes the extension degree (u64 LE, 8 bytes), coordinate-order
    /// discriminant and reconstruction-rule discriminant (each 1 byte).
    fn to_transcript_binding(&self) -> (b: TranscriptBinding)
        ensures
            b.label_view() == DOMAIN_BASIS@,
            b.bytes_view() == basis_bytes(*self),
    {
        let mut bytes: Vec<u8> = Vec::new();
        push_le64(&mut bytes, self.extension_degree);
        bytes.push(
            match self.coordinate_order {
                CoordinateOrder::LittleEndianMonomial => 0u8,
            },
        );
        bytes.push(
            match self.reconstruction_rule {
                ReconstructionRule::BinomialExtension => 0u8,
            },
        );
        assert(bytes@ =~= basis_bytes(*self));
        TranscriptBinding::new(DOMAIN_BASIS, bytes)
    }
}

/// Identifier of the hash suite that derives the transcript challenges.
#[derive(Clone, Debug, PartialEq, Eq)]
pub struct HashIdentifier {
    suite: String,
}

/// Canonical encoding of a hash-suite identifier: the UTF-8 length of the
/// suite name (u64 LE) followed by its UTF-8 bytes.
pub open spec fn hash_identifier_bytes(suite: Seq<char>) -> Seq<u8> {
    le64(vstd::utf8::encode_utf8(suite).len() as usize) + vstd::utf8::encode_utf8(suite)
}

impl HashIdentifier {
    /// The characters of the suite name.
    pub closed spec fn suite_view(&self) -> Seq<char> {
        self.suite@
    }

    /// Builds an identifier for the named hash suite.
    pub fn new(suite: String) -> (h: Self)
        ensures
            h.suite_view() == suite@,
    {
        HashIdentifier { suite }
    }

    /// The suite name.
    pub fn suite(&self) -> (r: &str)
        ensures
            r@ == self.suite_view(),
    {
        self.suite.as_str()
    }
}

impl TranscriptBindable for HashIdentifier {
    /// Encodes the suite name, length-prefixed, under `DOMAIN_HASH_ID`.
    fn to_transcript_binding(&self) -> (b: TranscriptBinding)
        ensures
            b.label_view() == DOMAIN_HASH_ID@,
            b.bytes_view() == hash_identifier_bytes(self.suite_view()),
    {
        let suite_bytes = self.suite.as_str().as_bytes();
        let mut bytes: Vec<u8> = Vec::new();
        push_le64(&mut bytes, suite_bytes.len());
        append_bytes(&mut bytes, suite_bytes);
        assert(bytes@ =~= hash_identifier_bytes(self.suite_view()));
        TranscriptBinding::new(DOMAIN_HASH_ID, bytes)
    }
}

/// A per-sampling-stage manifest of expected transcript bindings.
///
/// Associates each sampling stage with the exact [`TranscriptBinding`] values
/// that must have been absorbed before that stage may be entered.
#[derive(Clone, Debug)]
pub struct TranscriptBindingManifest {
    before_batching_challenge: Vec<TranscriptBinding>,
    before_ood_point: Vec<TranscriptBinding>,
    before_prove_masked: Vec<TranscriptBinding>,
}

impl TranscriptBindingManifest {
    /// Bindings required before the batching challenge is sampled.
    pub closed spec fn batching_view(&self) -> Seq<TranscriptBinding> {
        self.before_batching_challenge@
    }

    /// Bindings required before the out-of-domain point is sampled.
    pub closed spec fn ood_view(&self) -> Seq<TranscriptBinding> {
        self.before_ood_point@
    }

    /// Bindings required before the masked relation is proved.
    pub closed spec fn prove_view(&self) -> Seq<TranscriptBinding> {
        self.before_prove_masked@
    }

    /// The bindings a stage requires: the three sampling stages have their
    /// own lists, every other stage requires none.
    pub open spec fn required_view(&self, stage: TranscriptStage) -> Seq<TranscriptBinding> {
        match stage {
            TranscriptStage::SampleBatchingChallenge => self.batching_view(),
            TranscriptStage::SampleOodPoint => self.ood_view(),
            TranscriptStage::ProveMaskedRelation => self.prove_view(),
            _ => Seq::empty(),
        }
    }

    /// Creates an empty manifest — no exact-byte requirements on any sampling stage.
    pub fn new() -> (m: Self)
        ensures
            m.batching_view() == Seq::<TranscriptBinding>::empty(),
            m.ood_view() == Seq::<TranscriptBinding>::empty(),
            m.prove_view() == Seq::<TranscriptBinding>::empty(),
    {
        TranscriptBindingManifest {
            before_batching_challenge: Vec::new(),
            before_ood_point: Vec::new(),
            before_prove_masked: Vec::new(),
        }
    }

    /// Adds an expected binding that must be present before `SampleBatchingChallenge`.
    pub fn with_before_batching_challenge(self, binding: TranscriptBinding) -> (m: Self)
        ensures
            m.batching_view() == self.batching_view().push(binding),
            m.ood_view() == self.ood_view(),
            m.prove_view() == self.prove_view(),
    {
        let mut m = self;
        m.before_batching_challenge.push(binding);
        m
    }

    /// Adds an expected binding that must be present before `SampleOodPoint`.
    pub fn with_before_ood_point(self, binding: TranscriptBinding) -> (m: Self)
        ensures
            m.batching_view() == self.batching_view(),
            m.ood_view() == self.ood_view().push(binding),
            m.prove_view() == self.prove_view(),
    {
        let mut m = self;
        m.before_ood_point.push(binding);
        m
    }

    /// Adds an expected binding that must be present before `ProveMaskedRelation`.
    pub fn with_before_prove_masked(self, binding: TranscriptBinding) -> (m: Self)
        ensures
            m.batching_view() == self.batching_view(),
            m.ood_view() == self.ood_view(),
            m.prove_view() == self.prove_view().push(binding),
    {
        let mut m = self;
        m.before_prove_masked.push(binding);
        m
    }

    /// Returns the expected bindings for the given stage; an empty slice for
    /// non-sampling stages.
    pub fn required_before(&self, stage: TranscriptStage) -> (r: &[TranscriptBinding])
        ensures
            r@ == self.required_view(stage),
    {
        match stage {
            TranscriptStage::SampleBatchingChallenge => self.before_batching_challenge.as_slice(),
            TranscriptStage::SampleOodPoint => self.before_ood_point.as_slice(),
            TranscriptStage::ProveMaskedRelation => self.before_prove_masked.as_slice(),
            _ => &[],
        }
    }
}

/// The canonical SHROUD bindings of a batch-opening proof, one per slot of
/// the canonical schedule.
pub struct StandardBatchOpeningBindings {
    /// The hash-suite identifier.
    pub hash_identifier: TranscriptBinding,
    /// The hiding profile.
    pub profile: TranscriptBinding,
    /// The extension-field basis descriptor.
    pub basis: TranscriptBinding,
    /// The batch-opening object.
    pub batch_opening: TranscriptBinding,
    /// The codeword-embedding object.
    pub codeword_embedding: TranscriptBinding,
    /// The oracle-commitment object.
    pub oracle_commitment: TranscriptBinding,
    /// The opening-projection object.
    pub opening_projection: TranscriptBinding,
    /// The quotient-hider object.
    pub quotient_hider: TranscriptBinding,
    /// The security level.
    pub security_level: TranscriptBinding,
    /// The quotient degree contract.
    pub degree_contract: TranscriptBinding,
    /// The randomizer commitment.
    pub randomizer_commitment: TranscriptBinding,
    /// The public openings.
    pub public_openings: TranscriptBinding,
}

impl TranscriptBindingManifest {
    /// The canonical batch-opening schedule: the configuration bindings
    /// (hash suite, profile, basis, the five protocol objects, security
    /// level) before the batching challenge; the degree contract and the
    /// randomizer commitment before the out-of-domain point; the public
    /// openings before the masked relation.
    pub fn standard_for_batch_opening(b: StandardBatchOpeningBindings) -> (m: Self)
        ensures
            m.batching_view() == seq![
                b.hash_identifier,
                b.profile,
                b.basis,
                b.batch_opening,
                b.codeword_embedding,
                b.oracle_commitment,
                b.opening_projection,
                b.quotient_hider,
                b.security_level,
            ],
            m.ood_view() == seq![b.degree_contract, b.randomizer_commitment],
            m.prove_view() == seq![b.public_openings],
    {
        let ghost g = b;
        let StandardBatchOpeningBindings {
            hash_identifier,
            profile,
            basis,
            batch_opening,
            codeword_embedding,
            oracle_commitment,
            opening_projection,
            quotient_hider,
            security_level,
            degree_contract,
            randomizer_commitment,
            public_openings,
        } = b;
        let m = TranscriptBindingManifest::new()
            .with_before_batching_challenge(hash_identifier)
            .with_before_batching_challenge(profile)
            .with_before_batching_challenge(basis)
            .with_before_batching_challenge(batch_opening)
            .with_before_batching_challenge(codeword_embedding)
            .with_before_batching_challenge(oracle_commitment)
            .with_before_batching_challenge(opening_projection)
            .with_before_batching_challenge(quotient_hider)
            .with_before_batching_challenge(security_level)
            .with_before_ood_point(degree_contract)
            .with_before_ood_point(randomizer_commitment)
            .with_before_prove_masked(public_openings);
        assert(m.batching_view() =~= seq![
            g.hash_identifier,
            g.profile,
            g.basis,
            g.batch_opening,
            g.codeword_embedding,
            g.oracle_commitment,
            g.opening_projection,
            g.quotient_hider,
            g.security_level,
        ]);
        assert(m.ood_view() =~= seq![g.degree_contract, g.randomizer_commitment]);
        assert(m.prove_view() =~= seq![g.public_openings]);
        m
    }
}

} // verus!
