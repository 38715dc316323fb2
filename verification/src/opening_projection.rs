//! SHROUD object for separating public opening views from hidden auxiliary openings.
//!
//! `SecurityLevel` records the claimed outer guarantee for the projection
//! object; it does not constrain the chosen auxiliary transport.
use vstd::prelude::*;
use crate::binding::{TranscriptBindable, TranscriptBinding, DOMAIN_OPENING_PROJECTION};
use crate::bytes::{le64, lemma_le64_facts, push_le64};
use crate::security::{SecurityLevel, security_level_byte, security_level_discriminant};

verus! {

/// How hidden auxiliary opening material is carried through the outer proof.
#[derive(Clone, Copy, Debug, PartialEq, Eq, Structural)]
pub enum AuxiliaryOpeningTransport {
    /// Hidden auxiliaries stay in-band with the main opening proof.
    InBandWithMainProof,
    /// Hidden auxiliaries move in a separate proof envelope or field.
    SeparateAuxiliaryProof,
}

/// Error raised when an opening-projection object violates a SHROUD invariant.
#[derive(Clone, Copy, Debug, PartialEq, Eq, Structural)]
pub enum OpeningProjectionError {
    /// The public opening surface must expose at least one value.
    ZeroPublicOpeningValues,
    /// The proof must carry at least one hidden auxiliary value.
    ZeroHiddenAuxiliaryValues,
    /// The verifier must have at least one internal reconstruction item.
    ZeroVerifierReconstructionItems,
    /// The derived payload no longer matches the validated shape.
    PayloadShapeMismatch,
}

/// Shape of the public-vs-hidden opening split. Every count is non-zero.
#[derive(Clone, Copy, Debug, PartialEq, Eq, Structural)]
pub struct OpeningProjectionShape {
    public_opening_values: usize,
    hidden_auxiliary_values: usize,
    verifier_reconstruction_items: usize,
}

/// The verdict on a proposed shape: the first zero count, in parameter
/// order, is rejected.
pub open spec fn projection_shape_verdict(
    public_opening_values: usize,
    hidden_auxiliary_values: usize,
    verifier_reconstruction_items: usize,
) -> Result<(), OpeningProjectionError> {
    if public_opening_values == 0 {
        Err(OpeningProjectionError::ZeroPublicOpeningValues)
    } else if hidden_auxiliary_values == 0 {
        Err(OpeningProjectionError::ZeroHiddenAuxiliaryValues)
    } else if verifier_reconstruction_items == 0 {
        Err(OpeningProjectionError::ZeroVerifierReconstructionItems)
    } else {
        Ok(())
    }
}

impl OpeningProjectionShape {
    /// Public opening values.
    pub closed spec fn spec_public_opening_values(self) -> usize {
        self.public_opening_values
    }

    /// Hidden auxiliary values.
    pub closed spec fn spec_hidden_auxiliary_values(self) -> usize {
        self.hidden_auxiliary_values
    }

    /// Verifier reconstruction items.
    pub closed spec fn spec_verifier_reconstruction_items(self) -> usize {
        self.verifier_reconstruction_items
    }

    /// Builds a validated opening-projection shape.
    pub fn new(
        public_opening_values: usize,
        hidden_auxiliary_values: usize,
        verifier_reconstruction_items: usize,
    ) -> (r: Result<Self, OpeningProjectionError>)
        ensures
            ({
                let verdict = projection_shape_verdict(
                    public_opening_values,
                    hidden_auxiliary_values,
                    verifier_reconstruction_items,
                );
                &&& r is Ok <==> verdict is Ok
                &&& r matches Err(e) ==> verdict == Err::<(), OpeningProjectionError>(e)
                &&& r matches Ok(s) ==> {
                    &&& s.spec_public_opening_values() == public_opening_values
                    &&& s.spec_hidden_auxiliary_values() == hidden_auxiliary_values
                    &&& s.spec_verifier_reconstruction_items() == verifier_reconstruction_items
                }
            }),
    {
        if public_opening_values == 0 {
            return Err(OpeningProjectionError::ZeroPublicOpeningValues);
        }
        if hidden_auxiliary_values == 0 {
            return Err(OpeningProjectionError::ZeroHiddenAuxiliaryValues);
        }
        if verifier_reconstruction_items == 0 {
            return Err(OpeningProjectionError::ZeroVerifierReconstructionItems);
        }
        Ok(
            OpeningProjectionShape {
                public_opening_values,
                hidden_auxiliary_values,
                verifier_reconstruction_items,
            },
        )
    }

    /// Number of verifier-visible opening values carried by the statement surface.
    pub fn public_opening_values(self) -> (r: usize)
        ensures
            r == self.spec_public_opening_values(),
    {
        self.public_opening_values
    }

    /// Number of hidden auxiliary opening values carried in the proof.
    pub fn hidden_auxiliary_values(self) -> (r: usize)
        ensures
            r == self.spec_hidden_auxiliary_values(),
    {
        self.hidden_auxiliary_values
    }

    /// Number of internal reconstruction items the verifier needs.
    pub fn verifier_reconstruction_items(self) -> (r: usize)
        ensures
            r == self.spec_verifier_reconstruction_items(),
    {
        self.verifier_reconstruction_items
    }
}

/// Concrete public-vs-hidden opening surface implied by a SHROUD projection object.
#[derive(Clone, Copy, Debug, PartialEq, Eq, Structural)]
pub struct OpeningProjectionPayload {
    public_opening_values: usize,
    hidden_auxiliary_values: usize,
    verifier_reconstruction_items: usize,
    auxiliary_transport: AuxiliaryOpeningTransport,
}

impl OpeningProjectionPayload {
    /// Public opening values.
    pub closed spec fn spec_public_opening_values(self) -> usize {
        self.public_opening_values
    }

    /// Hidden auxiliary values.
    pub closed spec fn spec_hidden_auxiliary_values(self) -> usize {
        self.hidden_auxiliary_values
    }

    /// Verifier reconstruction items.
    pub closed spec fn spec_verifier_reconstruction_items(self) -> usize {
        self.verifier_reconstruction_items
    }

    /// Transport of the hidden material.
    pub closed spec fn spec_auxiliary_transport(self) -> AuxiliaryOpeningTransport {
        self.auxiliary_transport
    }

    /// The payload's counts are the shape's counts.
    pub open spec fn matches_shape(self, shape: OpeningProjectionShape) -> bool {
        &&& self.spec_public_opening_values() == shape.spec_public_opening_values()
        &&& self.spec_hidden_auxiliary_values() == shape.spec_hidden_auxiliary_values()
        &&& self.spec_verifier_reconstruction_items() == shape.spec_verifier_reconstruction_items()
    }

    /// Builds a projection payload from a validated shape.
    pub fn new(shape: OpeningProjectionShape, auxiliary_transport: AuxiliaryOpeningTransport) -> (p: Self)
        ensures
            p.matches_shape(shape),
            p.spec_auxiliary_transport() == auxiliary_transport,
    {
        OpeningProjectionPayload {
            public_opening_values: shape.public_opening_values(),
            hidden_auxiliary_values: shape.hidden_auxiliary_values(),
            verifier_reconstruction_items: shape.verifier_reconstruction_items(),
            auxiliary_transport,
        }
    }

    /// Number of public opening values carried by the outer statement surface.
    pub fn public_opening_values(self) -> (r: usize)
        ensures
            r == self.spec_public_opening_values(),
    {
        self.public_opening_values
    }

    /// Number of hidden auxiliary opening values carried in the proof.
    pub fn hidden_auxiliary_values(self) -> (r: usize)
        ensures
            r == self.spec_hidden_auxiliary_values(),
    {
        self.hidden_auxiliary_values
    }

    /// Number of verifier reconstruction items implied by the projection.
    pub fn verifier_reconstruction_items(self) -> (r: usize)
        ensures
            r == self.spec_verifier_reconstruction_items(),
    {
        self.verifier_reconstruction_items
    }

    /// Transport mechanism for the hidden auxiliary opening material.
    pub fn auxiliary_transport(self) -> (r: AuxiliaryOpeningTransport)
        ensures
            r == self.spec_auxiliary_transport(),
    {
        self.auxiliary_transport
    }
}

/// SHROUD object that projects public openings away from hidden auxiliary openings.
///
/// Invariant: the payload matches the shape.
#[derive(Clone, Copy, Debug, PartialEq, Eq, Structural)]
pub struct ShroudOpeningProjectionSpec {
    security_level: SecurityLevel,
    shape: OpeningProjectionShape,
    payload: OpeningProjectionPayload,
}

impl ShroudOpeningProjectionSpec {
    /// Security level.
    pub closed spec fn spec_security_level(&self) -> SecurityLevel {
        self.security_level
    }

    /// Shape.
    pub closed spec fn spec_shape(&self) -> OpeningProjectionShape {
        self.shape
    }

    /// Payload.
    pub closed spec fn spec_payload(&self) -> OpeningProjectionPayload {
        self.payload
    }

    /// What a constructor returns: always the built spec, since the payload
    /// is derived from the shape.
    pub open spec fn construction_outcome(
        r: Result<Self, OpeningProjectionError>,
        security_level: SecurityLevel,
        shape: OpeningProjectionShape,
        auxiliary_transport: AuxiliaryOpeningTransport,
    ) -> bool {
        &&& r is Ok
        &&& r matches Ok(s) ==> {
            &&& s.spec_security_level() == security_level
            &&& s.spec_shape() == shape
            &&& s.spec_payload().matches_shape(shape)
            &&& s.spec_payload().spec_auxiliary_transport() == auxiliary_transport
        }
    }

    /// Builds a statistical opening-projection object; the transport is not
    /// constrained beyond the validated shape.
    pub fn statistical(shape: OpeningProjectionShape, auxiliary_transport: AuxiliaryOpeningTransport) -> (r: Result<Self, OpeningProjectionError>)
        ensures
            Self::construction_outcome(r, SecurityLevel::Statistical, shape, auxiliary_transport),
    {
        Self::new(SecurityLevel::Statistical, shape, auxiliary_transport)
    }

    /// Builds a perfect opening-projection object; the transport is not
    /// constrained by the security level.
    pub fn perfect(shape: OpeningProjectionShape, auxiliary_transport: AuxiliaryOpeningTransport) -> (r: Result<Self, OpeningProjectionError>)
        ensures
            Self::construction_outcome(r, SecurityLevel::Perfect, shape, auxiliary_transport),
    {
        Self::new(SecurityLevel::Perfect, shape, auxiliary_transport)
    }

    /// Builds an opening-projection object with an explicit security level.
    pub fn new(
        security_level: SecurityLevel,
        shape: OpeningProjectionShape,
        auxiliary_transport: AuxiliaryOpeningTransport,
    ) -> (r: Result<Self, OpeningProjectionError>)
        ensures
            Self::construction_outcome(r, security_level, shape, auxiliary_transport),
    {
        let payload = OpeningProjectionPayload::new(shape, auxiliary_transport);
        let spec = ShroudOpeningProjectionSpec { security_level, shape, payload };
        match spec.validate() {
            Ok(()) => Ok(spec),
            Err(e) => Err(e),
        }
    }

    /// Security level implemented by the opening-projection object.
    pub fn security_level(&self) -> (r: SecurityLevel)
        ensures
            r == self.spec_security_level(),
    {
        self.security_level
    }

    /// Shape of the projection.
    pub fn shape(&self) -> (r: OpeningProjectionShape)
        ensures
            r == self.spec_shape(),
    {
        self.shape
    }

    /// Public-vs-hidden opening payload implied by the projection object.
    pub fn payload(&self) -> (r: OpeningProjectionPayload)
        ensures
            r == self.spec_payload(),
    {
        self.payload
    }

    /// Transport mechanism used by the hidden auxiliary opening material.
    pub fn auxiliary_transport(&self) -> (r: AuxiliaryOpeningTransport)
        ensures
            r == self.spec_payload().spec_auxiliary_transport(),
    {
        self.payload.auxiliary_transport()
    }

    /// Validates the shape-level invariants of the projection object.
    pub fn validate(&self) -> (r: Result<(), OpeningProjectionError>)
        ensures
            r is Ok <==> self.spec_payload().matches_shape(self.spec_shape()),
            r matches Err(e) ==> e == OpeningProjectionError::PayloadShapeMismatch,
    {
        if self.payload.public_opening_values() != self.shape.public_opening_values()
            || self.payload.hidden_auxiliary_values() != self.shape.hidden_auxiliary_values()
            || self.payload.verifier_reconstruction_items()
            != self.shape.verifier_reconstruction_items() {
            return Err(OpeningProjectionError::PayloadShapeMismatch);
        }
        Ok(())
    }
}

/// One-byte discriminant of an opening transport.
pub open spec fn opening_transport_byte(t: AuxiliaryOpeningTransport) -> u8 {
    match t {
        AuxiliaryOpeningTransport::InBandWithMainProof => 0,
        AuxiliaryOpeningTransport::SeparateAuxiliaryProof => 1,
    }
}

fn auxiliary_transport_discriminant(transport: AuxiliaryOpeningTransport) -> (b: u8)
    ensures
        b == opening_transport_byte(transport),
{
    match transport {
        AuxiliaryOpeningTransport::InBandWithMainProof => 0,
        AuxiliaryOpeningTransport::SeparateAuxiliaryProof => 1,
    }
}

/// Canonical encoding of an opening-projection spec: security-level byte,
/// the three shape counts and the three payload counts (u64 LE each), and
/// the transport byte — 50 bytes.
pub open spec fn projection_bytes(spec: ShroudOpeningProjectionSpec) -> Seq<u8> {
    let shape = spec.spec_shape();
    let payload = spec.spec_payload();
    seq![security_level_byte(spec.spec_security_level())] + le64(shape.spec_public_opening_values())
        + le64(shape.spec_hidden_auxiliary_values()) + le64(
        shape.spec_verifier_reconstruction_items(),
    ) + le64(payload.spec_public_opening_values()) + le64(payload.spec_hidden_auxiliary_values())
        + le64(payload.spec_verifier_reconstruction_items()) + seq![
        opening_transport_byte(payload.spec_auxiliary_transport()),
    ]
}

impl TranscriptBindable for ShroudOpeningProjectionSpec {
    /// Encodes the complete opening-projection spec: security level, shape,
    /// derived payload, and auxiliary transport.
    fn to_transcript_binding(&self) -> (b: TranscriptBinding)
        ensures
            b.label_view() == DOMAIN_OPENING_PROJECTION@,
            b.bytes_view() == projection_bytes(*self),
            b.bytes_view().len() == 50,
            b.bytes_view()[0] == match self.spec_security_level() {
                SecurityLevel::Statistical => 0u8,
                SecurityLevel::Perfect => 1u8,
            },
            b.bytes_view()[49] == match self.spec_payload().spec_auxiliary_transport() {
                AuxiliaryOpeningTransport::InBandWithMainProof => 0u8,
                AuxiliaryOpeningTransport::SeparateAuxiliaryProof => 1u8,
            },
    {
        let mut bytes: Vec<u8> = Vec::new();
        bytes.push(security_level_discriminant(self.security_level()));
        let shape = self.shape();
        push_le64(&mut bytes, shape.public_opening_values());
        push_le64(&mut bytes, shape.hidden_auxiliary_values());
        push_le64(&mut bytes, shape.verifier_reconstruction_items());
        let payload = self.payload();
        push_le64(&mut bytes, payload.public_opening_values());
        push_le64(&mut bytes, payload.hidden_auxiliary_values());
        push_le64(&mut bytes, payload.verifier_reconstruction_items());
        bytes.push(auxiliary_transport_discriminant(payload.auxiliary_transport()));
        assert(bytes@ =~= projection_bytes(*self));
        proof {
            lemma_projection_bytes_layout(*self);
        }
        TranscriptBinding::new(DOMAIN_OPENING_PROJECTION, bytes)
    }
}

/// Where each field sits in the 50-byte encoding: the security-level byte
/// first, six 8-byte counts, the transport byte last.
proof fn lemma_projection_bytes_layout(x: ShroudOpeningProjectionSpec)
    ensures
        projection_bytes(x).len() == 50,
        projection_bytes(x)[0] == security_level_byte(x.spec_security_level()),
        projection_bytes(x)[49] == opening_transport_byte(x.spec_payload().spec_auxiliary_transport()),
        projection_bytes(x).subrange(1, 9) == le64(x.spec_shape().spec_public_opening_values()),
        projection_bytes(x).subrange(9, 17) == le64(x.spec_shape().spec_hidden_auxiliary_values()),
        projection_bytes(x).subrange(17, 25) == le64(x.spec_shape().spec_verifier_reconstruction_items()),
        projection_bytes(x).subrange(25, 33) == le64(x.spec_payload().spec_public_opening_values()),
        projection_bytes(x).subrange(33, 41) == le64(x.spec_payload().spec_hidden_auxiliary_values()),
        projection_bytes(x).subrange(41, 49) == le64(x.spec_payload().spec_verifier_reconstruction_items()),
{
    let shape = x.spec_shape();
    let payload = x.spec_payload();
    let f0 = le64(shape.spec_public_opening_values());
    let f1 = le64(shape.spec_hidden_auxiliary_values());
    let f2 = le64(shape.spec_verifier_reconstruction_items());
    let f3 = le64(payload.spec_public_opening_values());
    let f4 = le64(payload.spec_hidden_auxiliary_values());
    let f5 = le64(payload.spec_verifier_reconstruction_items());
    lemma_le64_facts(shape.spec_public_opening_values(), 0);
    lemma_le64_facts(shape.spec_hidden_auxiliary_values(), 0);
    lemma_le64_facts(shape.spec_verifier_reconstruction_items(), 0);
    lemma_le64_facts(payload.spec_public_opening_values(), 0);
    lemma_le64_facts(payload.spec_hidden_auxiliary_values(), 0);
    lemma_le64_facts(payload.spec_verifier_reconstruction_items(), 0);
    let b = projection_bytes(x);
    assert(b.len() == 50);
    assert(b.subrange(1, 9) =~= f0);
    assert(b.subrange(9, 17) =~= f1);
    assert(b.subrange(17, 25) =~= f2);
    assert(b.subrange(25, 33) =~= f3);
    assert(b.subrange(33, 41) =~= f4);
    assert(b.subrange(41, 49) =~= f5);
}

/// The opening-projection binding is injective: two specs with the same
/// canonical bytes are the same spec, so every field is bound — the
/// security level, the shape, the payload counts and the auxiliary
/// transport. In particular specs differing only in their transport have
/// different bindings.
pub proof fn law_projection_bytes_injective(x: ShroudOpeningProjectionSpec, y: ShroudOpeningProjectionSpec)
    requires
        projection_bytes(x) == projection_bytes(y),
    ensures
        x == y,
{
    lemma_projection_bytes_layout(x);
    lemma_projection_bytes_layout(y);
    lemma_le64_facts(x.spec_shape().spec_public_opening_values(), y.spec_shape().spec_public_opening_values());
    lemma_le64_facts(x.spec_shape().spec_hidden_auxiliary_values(), y.spec_shape().spec_hidden_auxiliary_values());
    lemma_le64_facts(
        x.spec_shape().spec_verifier_reconstruction_items(),
        y.spec_shape().spec_verifier_reconstruction_items(),
    );
    lemma_le64_facts(x.spec_payload().spec_public_opening_values(), y.spec_payload().spec_public_opening_values());
    lemma_le64_facts(x.spec_payload().spec_hidden_auxiliary_values(), y.spec_payload().spec_hidden_auxiliary_values());
    lemma_le64_facts(
        x.spec_payload().spec_verifier_reconstruction_items(),
        y.spec_payload().spec_verifier_reconstruction_items(),
    );
    assert(x.spec_shape() == y.spec_shape());
    assert(x.spec_payload() == y.spec_payload());
}

/// Human-readable rendering of an opening-projection error.
pub open spec fn opening_projection_error_text(e: OpeningProjectionError) -> Seq<char> {
    match e {
        OpeningProjectionError::ZeroPublicOpeningValues => "opening projection must expose at least one public opening value"@,
        OpeningProjectionError::ZeroHiddenAuxiliaryValues => "opening projection must carry at least one hidden auxiliary value"@,
        OpeningProjectionError::ZeroVerifierReconstructionItems => "opening projection must retain at least one verifier reconstruction item"@,
        OpeningProjectionError::PayloadShapeMismatch => "opening projection payload no longer matches its shape"@,
    }
}

impl OpeningProjectionError {
    /// Human-readable description of this error.
    pub fn message(&self) -> (r: String)
        ensures
            r@ == opening_projection_error_text(*self),
    {
        match self {
            OpeningProjectionError::ZeroPublicOpeningValues => String::from_str(
                "opening projection must expose at least one public opening value",
            ),
            OpeningProjectionError::ZeroHiddenAuxiliaryValues => String::from_str(
                "opening projection must carry at least one hidden auxiliary value",
            ),
            OpeningProjectionError::ZeroVerifierReconstructionItems => String::from_str(
                "opening projection must retain at least one verifier reconstruction item",
            ),
            OpeningProjectionError::PayloadShapeMismatch => String::from_str(
                "opening projection payload no longer matches its shape",
            ),
        }
    }
}

} // verus!
