//! SHROUD object for trace codeword embedding with randomizer columns.
//!
//! A trace matrix of width `w` is augmented with `r` randomizer columns and
//! committed via an MMCS; the FRI codeword is the LDE of each column over a
//! domain `2^required_log_blowup` times the trace domain. This object models
//! the statistical hiding case: the number of randomizer columns equals the
//! extension degree of the challenge field, and the blowup is at least 2.
use vstd::prelude::*;
use crate::degree::sat_add;
use crate::security::SecurityLevel;
use crate::surface::AuxiliaryTransport;
use crate::text::{decimal, push_decimal};

verus! {

/// Error raised when a codeword embedding object violates a SHROUD invariant.
#[derive(Clone, Copy, Debug, PartialEq, Eq, Structural)]
pub enum CodewordEmbeddingError {
    /// A codeword embedding must have at least one trace column.
    ZeroTraceColumns,
    /// A codeword embedding must have at least one randomizer column.
    ZeroRandomizerColumns,
    /// The trace evaluation domain must have a positive log size.
    ZeroDomainLogSize,
    /// The extension degree must be positive.
    ZeroExtensionDegree,
    /// The statistical invariant requires `randomizer_columns == extension_degree`.
    StatisticalInvariantViolated {
        /// Number of randomizer columns in the shape.
        randomizer_columns: usize,
        /// Extension degree of the challenge field.
        extension_degree: usize,
    },
    /// The FRI blowup must be at least 2 for the randomizer columns to hide the trace.
    InsufficientBlowup {
        /// The supplied `required_log_blowup` value.
        required_log_blowup: usize,
    },
    /// The derived payload no longer matches the validated shape.
    PayloadShapeMismatch,
    /// `SecurityLevel::Perfect` requires a `PerfectClaim`.
    PerfectRequiresClaim,
}

/// Shape of the codeword embedding: trace, randomizer, domain, and field
/// parameters. Every count is non-zero.
#[derive(Clone, Copy, Debug, PartialEq, Eq, Structural)]
pub struct CodewordEmbeddingShape {
    trace_columns: usize,
    randomizer_columns: usize,
    domain_log_size: usize,
    extension_degree: usize,
}

/// The verdict on a proposed shape: the first zero parameter, in parameter
/// order, is rejected.
pub open spec fn codeword_shape_verdict(
    trace_columns: usize,
    randomizer_columns: usize,
    domain_log_size: usize,
    extension_degree: usize,
) -> Result<(), CodewordEmbeddingError> {
    if trace_columns == 0 {
        Err(CodewordEmbeddingError::ZeroTraceColumns)
    } else if randomizer_columns == 0 {
        Err(CodewordEmbeddingError::ZeroRandomizerColumns)
    } else if domain_log_size == 0 {
        Err(CodewordEmbeddingError::ZeroDomainLogSize)
    } else if extension_degree == 0 {
        Err(CodewordEmbeddingError::ZeroExtensionDegree)
    } else {
        Ok(())
    }
}

impl CodewordEmbeddingShape {
    /// Public trace columns.
    pub closed spec fn spec_trace_columns(self) -> usize {
        self.trace_columns
    }

    /// Hidden randomizer columns.
    pub closed spec fn spec_randomizer_columns(self) -> usize {
        self.randomizer_columns
    }

    /// Log size of the trace domain.
    pub closed spec fn spec_domain_log_size(self) -> usize {
        self.domain_log_size
    }

    /// Extension degree of the challenge field.
    pub closed spec fn spec_extension_degree(self) -> usize {
        self.extension_degree
    }

    /// Builds a validated codeword embedding shape.
    ///
    /// All parameters must be non-zero. The statistical invariant
    /// (`randomizer_columns == extension_degree`) is enforced by
    /// `ShroudCodewordEmbeddingSpec`, not here.
    pub fn new(
        trace_columns: usize,
        randomizer_columns: usize,
        domain_log_size: usize,
        extension_degree: usize,
    ) -> (r: Result<Self, CodewordEmbeddingError>)
        ensures
            ({
                let verdict = codeword_shape_verdict(
                    trace_columns,
                    randomizer_columns,
                    domain_log_size,
                    extension_degree,
                );
                &&& r is Ok <==> verdict is Ok
                &&& r matches Err(e) ==> verdict == Err::<(), CodewordEmbeddingError>(e)
                &&& r matches Ok(s) ==> {
                    &&& s.spec_trace_columns() == trace_columns
                    &&& s.spec_randomizer_columns() == randomizer_columns
                    &&& s.spec_domain_log_size() == domain_log_size
                    &&& s.spec_extension_degree() == extension_degree
                }
            }),
    {
        if trace_columns == 0 {
            return Err(CodewordEmbeddingError::ZeroTraceColumns);
        }
        if randomizer_columns == 0 {
            return Err(CodewordEmbeddingError::ZeroRandomizerColumns);
        }
        if domain_log_size == 0 {
            return Err(CodewordEmbeddingError::ZeroDomainLogSize);
        }
        if extension_degree == 0 {
            return Err(CodewordEmbeddingError::ZeroExtensionDegree);
        }
        Ok(CodewordEmbeddingShape { trace_columns, randomizer_columns, domain_log_size, extension_degree })
    }

    /// Number of public trace columns in the committed matrix.
    pub fn trace_columns(self) -> (r: usize)
        ensures
            r == self.spec_trace_columns(),
    {
        self.trace_columns
    }

    /// Number of hidden randomizer columns appended to the trace.
    pub fn randomizer_columns(self) -> (r: usize)
        ensures
            r == self.spec_randomizer_columns(),
    {
        self.randomizer_columns
    }

    /// Total committed columns: trace columns plus randomizer columns (saturating).
    pub fn committed_columns(self) -> (r: usize)
        ensures
            r == sat_add(self.spec_trace_columns(), self.spec_randomizer_columns()),
    {
        self.trace_columns.saturating_add(self.randomizer_columns)
    }

    /// Log base 2 of the trace evaluation domain size.
    pub fn domain_log_size(self) -> (r: usize)
        ensures
            r == self.spec_domain_log_size(),
    {
        self.domain_log_size
    }

    /// Extension degree of the challenge field over the base field.
    pub fn extension_degree(self) -> (r: usize)
        ensures
            r == self.spec_extension_degree(),
    {
        self.extension_degree
    }
}

/// Public-vs-hidden surface implied by a codeword embedding object.
#[derive(Clone, Copy, Debug, PartialEq, Eq, Structural)]
pub struct CodewordEmbeddingPayload {
    committed_columns: usize,
    public_trace_columns: usize,
    hidden_randomizer_columns: usize,
    domain_log_size: usize,
    required_log_blowup: usize,
    auxiliary_transport: AuxiliaryTransport,
}

impl CodewordEmbeddingPayload {
    /// Committed columns.
    pub closed spec fn spec_committed_columns(self) -> usize {
        self.committed_columns
    }

    /// Public trace columns.
    pub closed spec fn spec_public_trace_columns(self) -> usize {
        self.public_trace_columns
    }

    /// Hidden randomizer columns.
    pub closed spec fn spec_hidden_randomizer_columns(self) -> usize {
        self.hidden_randomizer_columns
    }

    /// Log size of the trace domain.
    pub closed spec fn spec_domain_log_size(self) -> usize {
        self.domain_log_size
    }

    /// Minimum log blowup.
    pub closed spec fn spec_required_log_blowup(self) -> usize {
        self.required_log_blowup
    }

    /// Transport of the hidden material.
    pub closed spec fn spec_auxiliary_transport(self) -> AuxiliaryTransport {
        self.auxiliary_transport
    }

    /// The payload's columns follow from `shape`: committed = trace +
    /// randomizer (saturating), public = trace, hidden = randomizer, and the
    /// same domain.
    pub open spec fn matches_shape(self, shape: CodewordEmbeddingShape) -> bool {
        &&& self.spec_committed_columns() == sat_add(
            shape.spec_trace_columns(),
            shape.spec_randomizer_columns(),
        )
        &&& self.spec_public_trace_columns() == shape.spec_trace_columns()
        &&& self.spec_hidden_randomizer_columns() == shape.spec_randomizer_columns()
        &&& self.spec_domain_log_size() == shape.spec_domain_log_size()
    }

    /// Builds a codeword embedding payload from a validated shape.
    pub fn new(
        shape: CodewordEmbeddingShape,
        required_log_blowup: usize,
        auxiliary_transport: AuxiliaryTransport,
    ) -> (p: Self)
        ensures
            p.matches_shape(shape),
            p.spec_required_log_blowup() == required_log_blowup,
            p.spec_auxiliary_transport() == auxiliary_transport,
    {
        CodewordEmbeddingPayload {
            committed_columns: shape.committed_columns(),
            public_trace_columns: shape.trace_columns(),
            hidden_randomizer_columns: shape.randomizer_columns(),
            domain_log_size: shape.domain_log_size(),
            required_log_blowup,
            auxiliary_transport,
        }
    }

    /// Total number of committed columns (trace + randomizer).
    pub fn committed_columns(self) -> (r: usize)
        ensures
            r == self.spec_committed_columns(),
    {
        self.committed_columns
    }

    /// Number of public trace columns visible to the verifier.
    pub fn public_trace_columns(self) -> (r: usize)
        ensures
            r == self.spec_public_trace_columns(),
    {
        self.public_trace_columns
    }

    /// Number of hidden randomizer columns carried in the proof.
    pub fn hidden_randomizer_columns(self) -> (r: usize)
        ensures
            r == self.spec_hidden_randomizer_columns(),
    {
        self.hidden_randomizer_columns
    }

    /// Log base 2 of the trace evaluation domain size.
    pub fn domain_log_size(self) -> (r: usize)
        ensures
            r == self.spec_domain_log_size(),
    {
        self.domain_log_size
    }

    /// Minimum log blowup the FRI PCS must use for this embedding to hide.
    pub fn required_log_blowup(self) -> (r: usize)
        ensures
            r == self.spec_required_log_blowup(),
    {
        self.required_log_blowup
    }

    /// Transport mechanism for the hidden randomizer opening material.
    pub fn auxiliary_transport(self) -> (r: AuxiliaryTransport)
        ensures
            r == self.spec_auxiliary_transport(),
    {
        self.auxiliary_transport
    }
}

/// The object-level rules, checked in order: a perfect level needs a claim,
/// randomizer columns must equal the extension degree, and the blowup must
/// be at least 2.
pub open spec fn codeword_embedding_rules(
    security_level: SecurityLevel,
    shape: CodewordEmbeddingShape,
    required_log_blowup: usize,
) -> Result<(), CodewordEmbeddingError> {
    if security_level is Perfect {
        Err(CodewordEmbeddingError::PerfectRequiresClaim)
    } else if shape.spec_randomizer_columns() != shape.spec_extension_degree() {
        Err(
            CodewordEmbeddingError::StatisticalInvariantViolated {
                randomizer_columns: shape.spec_randomizer_columns(),
                extension_degree: shape.spec_extension_degree(),
            },
        )
    } else if required_log_blowup < 2 {
        Err(CodewordEmbeddingError::InsufficientBlowup { required_log_blowup })
    } else {
        Ok(())
    }
}

/// The verdict of [`ShroudCodewordEmbeddingSpec::validate`]: the
/// object-level rules, then the payload/shape consistency check.
pub open spec fn codeword_embedding_verdict(
    security_level: SecurityLevel,
    shape: CodewordEmbeddingShape,
    payload: CodewordEmbeddingPayload,
) -> Result<(), CodewordEmbeddingError> {
    match codeword_embedding_rules(security_level, shape, payload.spec_required_log_blowup()) {
        Err(e) => Err(e),
        Ok(()) => if payload.matches_shape(shape) {
            Ok(())
        } else {
            Err(CodewordEmbeddingError::PayloadShapeMismatch)
        },
    }
}

/// SHROUD object for trace codeword embedding with statistical randomizer columns.
///
/// Invariant: [`codeword_embedding_verdict`] accepts its fields, so
/// `randomizer_columns == extension_degree` and `required_log_blowup >= 2`.
#[derive(Clone, Copy, Debug, PartialEq, Eq, Structural)]
pub struct ShroudCodewordEmbeddingSpec {
    security_level: SecurityLevel,
    shape: CodewordEmbeddingShape,
    payload: CodewordEmbeddingPayload,
}

impl ShroudCodewordEmbeddingSpec {
    /// Security level.
    pub closed spec fn spec_security_level(&self) -> SecurityLevel {
        self.security_level
    }

    /// Shape.
    pub closed spec fn spec_shape(&self) -> CodewordEmbeddingShape {
        self.shape
    }

    /// Payload.
    pub closed spec fn spec_payload(&self) -> CodewordEmbeddingPayload {
        self.payload
    }

    /// The spec's invariant: its fields pass validation.
    pub open spec fn wf(&self) -> bool {
        codeword_embedding_verdict(self.spec_security_level(), self.spec_shape(), self.spec_payload()) is Ok
    }

    /// What a constructor returns: the built spec when the object-level rules
    /// accept, otherwise their error. The payload is derived from the shape,
    /// so the payload/shape check never fires here.
    pub open spec fn construction_outcome(
        r: Result<Self, CodewordEmbeddingError>,
        security_level: SecurityLevel,
        shape: CodewordEmbeddingShape,
        required_log_blowup: usize,
        auxiliary_transport: AuxiliaryTransport,
    ) -> bool {
        let verdict = codeword_embedding_rules(security_level, shape, required_log_blowup);
        &&& r is Ok <==> verdict is Ok
        &&& r matches Err(e) ==> verdict == Err::<(), CodewordEmbeddingError>(e)
        &&& r matches Ok(s) ==> {
            &&& s.spec_security_level() == security_level
            &&& s.spec_shape() == shape
            &&& s.spec_payload().matches_shape(shape)
            &&& s.spec_payload().spec_required_log_blowup() == required_log_blowup
            &&& s.spec_payload().spec_auxiliary_transport() == auxiliary_transport
            &&& s.wf()
        }
    }

    /// Builds the standard statistical codeword embedding object, with
    /// `required_log_blowup = 2` and `AuxiliaryTransport::InBand`.
    pub fn statistical(shape: CodewordEmbeddingShape) -> (r: Result<Self, CodewordEmbeddingError>)
        ensures
            Self::construction_outcome(
                r,
                SecurityLevel::Statistical,
                shape,
                2,
                AuxiliaryTransport::InBand,
            ),
    {
        Self::statistical_with_transport(shape, AuxiliaryTransport::InBand)
    }

    /// Builds a statistical codeword embedding object with an explicit transport.
    pub fn statistical_with_transport(
        shape: CodewordEmbeddingShape,
        auxiliary_transport: AuxiliaryTransport,
    ) -> (r: Result<Self, CodewordEmbeddingError>)
        ensures
            Self::construction_outcome(r, SecurityLevel::Statistical, shape, 2, auxiliary_transport),
    {
        Self::new(SecurityLevel::Statistical, shape, 2, auxiliary_transport)
    }

    /// Builds a codeword embedding object with an explicit security level, blowup, and transport.
    pub fn new(
        security_level: SecurityLevel,
        shape: CodewordEmbeddingShape,
        required_log_blowup: usize,
        auxiliary_transport: AuxiliaryTransport,
    ) -> (r: Result<Self, CodewordEmbeddingError>)
        ensures
            Self::construction_outcome(
                r,
                security_level,
                shape,
                required_log_blowup,
                auxiliary_transport,
            ),
            r is Ok <==> (security_level is Statistical && shape.spec_randomizer_columns()
                == shape.spec_extension_degree() && required_log_blowup >= 2),
            security_level is Perfect ==> r == Err::<Self, CodewordEmbeddingError>(
                CodewordEmbeddingError::PerfectRequiresClaim,
            ),
            security_level is Statistical && shape.spec_randomizer_columns() != shape.spec_extension_degree()
                ==> r == Err::<Self, CodewordEmbeddingError>(
                CodewordEmbeddingError::StatisticalInvariantViolated {
                    randomizer_columns: shape.spec_randomizer_columns(),
                    extension_degree: shape.spec_extension_degree(),
                },
            ),
            security_level is Statistical && shape.spec_randomizer_columns() == shape.spec_extension_degree()
                ==> (r is Ok <==> required_log_blowup >= 2),
            security_level is Statistical && shape.spec_randomizer_columns() == shape.spec_extension_degree()
                && required_log_blowup < 2 ==> r == Err::<Self, CodewordEmbeddingError>(
                CodewordEmbeddingError::InsufficientBlowup { required_log_blowup },
            ),
    {
        let payload = CodewordEmbeddingPayload::new(shape, required_log_blowup, auxiliary_transport);
        let spec = ShroudCodewordEmbeddingSpec { security_level, shape, payload };
        match spec.validate() {
            Ok(()) => Ok(spec),
            Err(e) => Err(e),
        }
    }

    /// Security level implemented by this codeword embedding object.
    pub fn security_level(&self) -> (r: SecurityLevel)
        ensures
            r == self.spec_security_level(),
    {
        self.security_level
    }

    /// Shape of the codeword embedding.
    pub fn shape(&self) -> (r: CodewordEmbeddingShape)
        ensures
            r == self.spec_shape(),
    {
        self.shape
    }

    /// Public-vs-hidden payload implied by this codeword embedding object.
    pub fn payload(&self) -> (r: CodewordEmbeddingPayload)
        ensures
            r == self.spec_payload(),
    {
        self.payload
    }

    /// Transport mechanism for the hidden randomizer opening material.
    pub fn auxiliary_transport(&self) -> (r: AuxiliaryTransport)
        ensures
            r == self.spec_payload().spec_auxiliary_transport(),
    {
        self.payload.auxiliary_transport()
    }

    /// Validates the invariants of this codeword embedding object: a perfect
    /// level is rejected, `randomizer_columns == extension_degree`,
    /// `required_log_blowup >= 2`, and the payload matches the shape.
    pub fn validate(&self) -> (r: Result<(), CodewordEmbeddingError>)
        ensures
            r == codeword_embedding_verdict(
                self.spec_security_level(),
                self.spec_shape(),
                self.spec_payload(),
            ),
            self.spec_security_level() is Statistical && self.spec_shape().spec_randomizer_columns()
                == self.spec_shape().spec_extension_degree() && self.spec_payload().matches_shape(self.spec_shape())
                ==> (r is Ok <==> self.spec_payload().spec_required_log_blowup() >= 2),
            self.spec_payload().spec_required_log_blowup() < 2 ==> r is Err,
    {
        if matches!(self.security_level, SecurityLevel::Perfect) {
            return Err(CodewordEmbeddingError::PerfectRequiresClaim);
        }
        if self.shape.randomizer_columns() != self.shape.extension_degree() {
            return Err(
                CodewordEmbeddingError::StatisticalInvariantViolated {
                    randomizer_columns: self.shape.randomizer_columns(),
                    extension_degree: self.shape.extension_degree(),
                },
            );
        }
        if self.payload.required_log_blowup() < 2 {
            return Err(
                CodewordEmbeddingError::InsufficientBlowup {
                    required_log_blowup: self.payload.required_log_blowup(),
                },
            );
        }
        if self.payload.committed_columns() != self.shape.trace_columns().saturating_add(
            self.shape.randomizer_columns(),
        ) || self.payload.public_trace_columns() != self.shape.trace_columns()
            || self.payload.hidden_randomizer_columns() != self.shape.randomizer_columns()
            || self.payload.domain_log_size() != self.shape.domain_log_size() {
            return Err(CodewordEmbeddingError::PayloadShapeMismatch);
        }
        Ok(())
    }
}

/// The blowup threshold of a statistical codeword embedding whose
/// randomizer columns equal the extension degree: construction accepts
/// every `required_log_blowup >= 2` and rejects every smaller one with
/// `InsufficientBlowup` naming it; raising an accepted blowup keeps it
/// accepted.
pub proof fn law_codeword_blowup_threshold(shape: CodewordEmbeddingShape, required_log_blowup: usize, higher: usize)
    requires
        shape.spec_randomizer_columns() == shape.spec_extension_degree(),
        required_log_blowup <= higher,
    ensures
        codeword_embedding_rules(SecurityLevel::Statistical, shape, required_log_blowup) is Ok
            <==> required_log_blowup >= 2,
        required_log_blowup < 2 ==> codeword_embedding_rules(SecurityLevel::Statistical, shape, required_log_blowup)
            == Err::<(), CodewordEmbeddingError>(
            CodewordEmbeddingError::InsufficientBlowup { required_log_blowup },
        ),
        codeword_embedding_rules(SecurityLevel::Statistical, shape, required_log_blowup) is Ok
            ==> codeword_embedding_rules(SecurityLevel::Statistical, shape, higher) is Ok,
{
}

/// Human-readable rendering of a codeword-embedding error.
pub open spec fn codeword_embedding_error_text(e: CodewordEmbeddingError) -> Seq<char> {
    match e {
        CodewordEmbeddingError::ZeroTraceColumns => "codeword embedding must have at least one trace column"@,
        CodewordEmbeddingError::ZeroRandomizerColumns => "codeword embedding must have at least one randomizer column"@,
        CodewordEmbeddingError::ZeroDomainLogSize => "codeword embedding trace domain must have a positive log size"@,
        CodewordEmbeddingError::ZeroExtensionDegree => "codeword embedding extension degree must be positive"@,
        CodewordEmbeddingError::StatisticalInvariantViolated { randomizer_columns, extension_degree } =>
            "statistical invariant violated: randomizer_columns ("@ + decimal(randomizer_columns as nat)
            + ") must equal extension_degree ("@ + decimal(extension_degree as nat) + ")"@,
        CodewordEmbeddingError::InsufficientBlowup { required_log_blowup } => "required_log_blowup ("@
            + decimal(required_log_blowup as nat)
            + ") must be at least 2 for randomizer columns to hide the trace under FRI"@,
        CodewordEmbeddingError::PayloadShapeMismatch => "codeword embedding payload no longer matches its shape"@,
        CodewordEmbeddingError::PerfectRequiresClaim => "SecurityLevel::Perfect requires a PerfectClaim; use a dedicated perfect constructor that carries and validates the claim"@,
    }
}

impl CodewordEmbeddingError {
    /// Human-readable description of this error.
    pub fn message(&self) -> (r: String)
        ensures
            r@ == codeword_embedding_error_text(*self),
    {
        match self {
            CodewordEmbeddingError::ZeroTraceColumns => String::from_str(
                "codeword embedding must have at least one trace column",
            ),
            CodewordEmbeddingError::ZeroRandomizerColumns => String::from_str(
                "codeword embedding must have at least one randomizer column",
            ),
            CodewordEmbeddingError::ZeroDomainLogSize => String::from_str(
                "codeword embedding trace domain must have a positive log size",
            ),
            CodewordEmbeddingError::ZeroExtensionDegree => String::from_str(
                "codeword embedding extension degree must be positive",
            ),
            CodewordEmbeddingError::StatisticalInvariantViolated {
                randomizer_columns,
                extension_degree,
            } => {
                let mut s = String::from_str("statistical invariant violated: randomizer_columns (");
                push_decimal(&mut s, *randomizer_columns as u64);
                s.append(") must equal extension_degree (");
                push_decimal(&mut s, *extension_degree as u64);
                s.append(")");
                s
            },
            CodewordEmbeddingError::InsufficientBlowup { required_log_blowup } => {
                let mut s = String::from_str("required_log_blowup (");
                push_decimal(&mut s, *required_log_blowup as u64);
                s.append(") must be at least 2 for randomizer columns to hide the trace under FRI");
                s
            },
            CodewordEmbeddingError::PayloadShapeMismatch => String::from_str(
                "codeword embedding payload no longer matches its shape",
            ),
            CodewordEmbeddingError::PerfectRequiresClaim => String::from_str(
                "SecurityLevel::Perfect requires a PerfectClaim; use a dedicated perfect constructor that carries and validates the claim",
            ),
        }
    }
}

} // verus!
