//! Errors of the Plonky3 bridge checks: which invariant failed first.
//!
//! The bridge verifies three invariants in order: provenance (backend
//! constants and the `p3-symmetric` advisory), manifest exact presence, and
//! byte-faithful challenger replay. The pre-grind bridge additionally runs
//! the structural extractor before them.
use vstd::prelude::*;
use crate::binding::{
    StandardBatchOpeningBindings, TranscriptBinding, TranscriptBindingError, TranscriptBindingManifest,
    binding_error_text, DOMAIN_RANDOMIZER_COMMITMENT,
};
use crate::bytes::copy_bytes;
use crate::live_extractor::{LiveExtractorShape, LivePreGrindExtraction, PreGrindSlices, extract_pre_grind_slices, pre_grind_outcome};
use crate::plonky3::{ReferenceHidingFriPcsProfile, backend_verdict, verify_profile_matches_backend};
use crate::recorder::{ByteTranscriptEvent, longest_byte_equivalent_prefix, replay_outcome, verify_byte_equivalence};
use crate::plonky3_bindings::{
    Plonky3UniStarkBindings, binding_is, DOMAIN_PLONKY3_AIR_PUBLIC_VALUES,
    DOMAIN_PLONKY3_FRI_COMMIT_PHASE_COMMITMENTS, DOMAIN_PLONKY3_FRI_FINAL_POLY,
    DOMAIN_PLONKY3_FRI_LOG_ARITIES, DOMAIN_PLONKY3_LOG_DEGREE, DOMAIN_PLONKY3_LOG_EXT_DEGREE,
    DOMAIN_PLONKY3_OPENED_VALUES, DOMAIN_PLONKY3_PREPROCESSED_COMMITMENT,
    DOMAIN_PLONKY3_PREPROCESSED_WIDTH, DOMAIN_PLONKY3_QUOTIENT_COMMITMENT,
    DOMAIN_PLONKY3_TRACE_COMMITMENT,
};
use crate::live_extractor::{LiveExtractionError, extraction_error_text};
use crate::plonky3::{BackendDriftError, drift_error_text};
use crate::recorder::{ReplayMismatch, replay_mismatch_text};

verus! {

/// First failure among the three bridge invariants.
#[derive(Clone, Debug, PartialEq, Eq)]
pub enum HarnessError {
    /// Backend constants or the `p3-symmetric` advisory check failed.
    Provenance(BackendDriftError),
    /// A required binding is absent from the record, or its bytes diverge.
    Manifest(TranscriptBindingError),
    /// Byte-faithful challenger replay diverged.
    Replay(ReplayMismatch),
}

/// Human-readable rendering of a harness error: the invariant in brackets,
/// then the underlying error.
pub open spec fn harness_error_text(e: HarnessError) -> Seq<char> {
    match e {
        HarnessError::Provenance(d) => "[provenance] "@ + drift_error_text(d),
        HarnessError::Manifest(m) => "[manifest] "@ + binding_error_text(m),
        HarnessError::Replay(r) => "[replay] "@ + replay_mismatch_text(r),
    }
}

impl HarnessError {
    /// Human-readable description, prefixed by the failed invariant.
    pub fn message(&self) -> (r: String)
        ensures
            r@ == harness_error_text(*self),
    {
        let (mut s, inner) = match self {
            HarnessError::Provenance(d) => (String::from_str("[provenance] "), d.message()),
            HarnessError::Manifest(m) => (String::from_str("[manifest] "), m.message()),
            HarnessError::Replay(r) => (String::from_str("[replay] "), r.message()),
        };
        s.append(inner.as_str());
        s
    }
}

impl From<BackendDriftError> for HarnessError {
    fn from(err: BackendDriftError) -> (r: Self)
        ensures
            r == HarnessError::Provenance(err),
    {
        HarnessError::Provenance(err)
    }
}

impl vstd::std_specs::convert::FromSpecImpl<BackendDriftError> for HarnessError {
    open spec fn obeys_from_spec() -> bool {
        true
    }

    open spec fn from_spec(v: BackendDriftError) -> Self {
        HarnessError::Provenance(v)
    }
}

impl From<TranscriptBindingError> for HarnessError {
    fn from(err: TranscriptBindingError) -> (r: Self)
        ensures
            r == HarnessError::Manifest(err),
    {
        HarnessError::Manifest(err)
    }
}

impl vstd::std_specs::convert::FromSpecImpl<TranscriptBindingError> for HarnessError {
    open spec fn obeys_from_spec() -> bool {
        true
    }

    open spec fn from_spec(v: TranscriptBindingError) -> Self {
        HarnessError::Manifest(v)
    }
}

impl From<ReplayMismatch> for HarnessError {
    fn from(err: ReplayMismatch) -> (r: Self)
        ensures
            r == HarnessError::Replay(err),
    {
        HarnessError::Replay(err)
    }
}

impl vstd::std_specs::convert::FromSpecImpl<ReplayMismatch> for HarnessError {
    open spec fn obeys_from_spec() -> bool {
        true
    }

    open spec fn from_spec(v: ReplayMismatch) -> Self {
        HarnessError::Replay(v)
    }
}

/// First failure of the end-to-end pre-grind bridge.
#[derive(Clone, Debug, PartialEq, Eq)]
pub enum PreGrindBridgeError {
    /// The structural extractor rejected the recorded events.
    Extraction(LiveExtractionError),
    /// The replay harness rejected the composed bindings.
    Harness(HarnessError),
}

/// Human-readable rendering of a pre-grind bridge error.
pub open spec fn pre_grind_bridge_error_text(e: PreGrindBridgeError) -> Seq<char> {
    match e {
        PreGrindBridgeError::Extraction(x) => "[pre_grind_bridge] "@ + extraction_error_text(x),
        PreGrindBridgeError::Harness(h) => "[pre_grind_bridge] "@ + harness_error_text(h),
    }
}

impl PreGrindBridgeError {
    /// Human-readable description, prefixed by `[pre_grind_bridge]`.
    pub fn message(&self) -> (r: String)
        ensures
            r@ == pre_grind_bridge_error_text(*self),
    {
        let mut s = String::from_str("[pre_grind_bridge] ");
        let inner = match self {
            PreGrindBridgeError::Extraction(x) => x.message(),
            PreGrindBridgeError::Harness(h) => h.message(),
        };
        s.append(inner.as_str());
        s
    }
}

impl From<LiveExtractionError> for PreGrindBridgeError {
    fn from(err: LiveExtractionError) -> (r: Self)
        ensures
            r == PreGrindBridgeError::Extraction(err),
    {
        PreGrindBridgeError::Extraction(err)
    }
}

impl vstd::std_specs::convert::FromSpecImpl<LiveExtractionError> for PreGrindBridgeError {
    open spec fn obeys_from_spec() -> bool {
        true
    }

    open spec fn from_spec(v: LiveExtractionError) -> Self {
        PreGrindBridgeError::Extraction(v)
    }
}

impl From<HarnessError> for PreGrindBridgeError {
    fn from(err: HarnessError) -> (r: Self)
        ensures
            r == PreGrindBridgeError::Harness(err),
    {
        PreGrindBridgeError::Harness(err)
    }
}

impl vstd::std_specs::convert::FromSpecImpl<HarnessError> for PreGrindBridgeError {
    open spec fn obeys_from_spec() -> bool {
        true
    }

    open spec fn from_spec(v: HarnessError) -> Self {
        PreGrindBridgeError::Harness(v)
    }
}

/// `b` holds the Plonky3 event bindings of a pre-grind bridge input: every
/// pre-out-of-domain slot carries the live bytes of the extraction `x` (the
/// preprocessed commitment only when it was extracted), and the four slots
/// after the out-of-domain point carry the given placeholder bytes.
pub open spec fn bridge_bindings_for(
    b: Plonky3UniStarkBindings,
    x: PreGrindSlices,
    opened_values: Seq<u8>,
    fri_commit_phase_commitments: Seq<u8>,
    fri_final_poly: Seq<u8>,
    fri_log_arities: Seq<u8>,
) -> bool {
    &&& binding_is(b.log_ext_degree_binding(), DOMAIN_PLONKY3_LOG_EXT_DEGREE, x.log_ext_degree)
    &&& binding_is(b.log_degree_binding(), DOMAIN_PLONKY3_LOG_DEGREE, x.log_degree)
    &&& binding_is(b.preprocessed_width_binding(), DOMAIN_PLONKY3_PREPROCESSED_WIDTH, x.preprocessed_width)
    &&& binding_is(b.trace_commitment_binding(), DOMAIN_PLONKY3_TRACE_COMMITMENT, x.trace_commit)
    &&& match x.preprocessed_commit {
        Some(p) => b.preprocessed_commitment_binding() matches Some(c)
            && binding_is(c, DOMAIN_PLONKY3_PREPROCESSED_COMMITMENT, p),
        None => b.preprocessed_commitment_binding() is None,
    }
    &&& binding_is(b.air_public_values_binding(), DOMAIN_PLONKY3_AIR_PUBLIC_VALUES, x.air_public_values)
    &&& binding_is(b.quotient_commitment_binding(), DOMAIN_PLONKY3_QUOTIENT_COMMITMENT, x.quotient_commit)
    &&& binding_is(b.opened_values_binding(), DOMAIN_PLONKY3_OPENED_VALUES, opened_values)
    &&& binding_is(
        b.fri_commit_phase_commitments_binding(),
        DOMAIN_PLONKY3_FRI_COMMIT_PHASE_COMMITMENTS,
        fri_commit_phase_commitments,
    )
    &&& binding_is(b.fri_final_poly_binding(), DOMAIN_PLONKY3_FRI_FINAL_POLY, fri_final_poly)
    &&& binding_is(b.fri_log_arities_binding(), DOMAIN_PLONKY3_FRI_LOG_ARITIES, fri_log_arities)
}

/// The Plonky3 event bindings of a pre-grind bridge input (see
/// [`bridge_bindings_for`]), and the canonical randomizer-commitment
/// binding: the live extracted root under `DOMAIN_RANDOMIZER_COMMITMENT`.
pub fn pre_grind_bindings(
    extraction: &LivePreGrindExtraction,
    opened_values: Vec<u8>,
    fri_commit_phase_commitments: Vec<u8>,
    fri_final_poly: Vec<u8>,
    fri_log_arities: Vec<u8>,
) -> (r: (Plonky3UniStarkBindings, TranscriptBinding))
    ensures
        bridge_bindings_for(
            r.0,
            extraction@,
            opened_values@,
            fri_commit_phase_commitments@,
            fri_final_poly@,
            fri_log_arities@,
        ),
        binding_is(r.1, DOMAIN_RANDOMIZER_COMMITMENT, extraction@.randomizer_commit),
{
    let base = Plonky3UniStarkBindings::new(
        copy_bytes(extraction.log_ext_degree.as_slice()),
        copy_bytes(extraction.log_degree.as_slice()),
        copy_bytes(extraction.preprocessed_width.as_slice()),
        copy_bytes(extraction.trace_commit.as_slice()),
        copy_bytes(extraction.air_public_values.as_slice()),
        copy_bytes(extraction.quotient_commit.as_slice()),
        opened_values,
        fri_commit_phase_commitments,
        fri_final_poly,
        fri_log_arities,
    );
    let bindings = match &extraction.preprocessed_commit {
        Some(bytes) => base.with_preprocessed_commitment(copy_bytes(bytes.as_slice())),
        None => base,
    };
    let randomizer = TranscriptBinding::new(
        DOMAIN_RANDOMIZER_COMMITMENT,
        copy_bytes(extraction.randomizer_commit.as_slice()),
    );
    (bindings, randomizer)
}

/// The manifest a pre-grind bridge checks the absorbed record against: the
/// canonical batch-opening schedule of `standard`, whose randomizer
/// commitment is replaced by the live one of `extraction`, extended with
/// the Plonky3 events of [`pre_grind_bindings`] at each stage.
///
/// Before the batching challenge: the nine configuration bindings, then
/// events 1 to 6; before the out-of-domain point: the degree contract, the
/// live randomizer commitment, then the quotient commitment; before the
/// masked relation: the public openings, then the four placeholder events.
pub fn pre_grind_manifest(
    extraction: &LivePreGrindExtraction,
    standard: StandardBatchOpeningBindings,
    opened_values: Vec<u8>,
    fri_commit_phase_commitments: Vec<u8>,
    fri_final_poly: Vec<u8>,
    fri_log_arities: Vec<u8>,
) -> (m: TranscriptBindingManifest)
    ensures
        exists|b: Plonky3UniStarkBindings, randomizer: TranscriptBinding|
            #![trigger bridge_bindings_for(b, extraction@, opened_values@, fri_commit_phase_commitments@, fri_final_poly@, fri_log_arities@), binding_is(randomizer, DOMAIN_RANDOMIZER_COMMITMENT, extraction@.randomizer_commit)]
            {
                &&& bridge_bindings_for(
                    b,
                    extraction@,
                    opened_values@,
                    fri_commit_phase_commitments@,
                    fri_final_poly@,
                    fri_log_arities@,
                )
                &&& binding_is(randomizer, DOMAIN_RANDOMIZER_COMMITMENT, extraction@.randomizer_commit)
                &&& m.batching_view() == seq![
                    standard.hash_identifier,
                    standard.profile,
                    standard.basis,
                    standard.batch_opening,
                    standard.codeword_embedding,
                    standard.oracle_commitment,
                    standard.opening_projection,
                    standard.quotient_hider,
                    standard.security_level,
                ] + b.batching_events()
                &&& m.ood_view() == seq![standard.degree_contract, randomizer] + b.ood_events()
                &&& m.prove_view() == seq![standard.public_openings] + b.prove_events()
            },
{
    let ghost g = standard;
    let (bindings, randomizer) = pre_grind_bindings(
        extraction,
        opened_values,
        fri_commit_phase_commitments,
        fri_final_poly,
        fri_log_arities,
    );
    let ghost gb = bindings;
    let ghost gr = randomizer;
    let StandardBatchOpeningBindings {
        hash_identifier,
        profile,
        basis,
        batch_opening,
        codeword_embedding,
        oracle_commitment,
        opening_projection,
        quotient_hider,
        security_level,
        degree_contract,
        randomizer_commitment: _,
        public_openings,
    } = standard;
    let live = StandardBatchOpeningBindings {
        hash_identifier,
        profile,
        basis,
        batch_opening,
        codeword_embedding,
        oracle_commitment,
        opening_projection,
        quotient_hider,
        security_level,
        degree_contract,
        randomizer_commitment: randomizer,
        public_openings,
    };
    let m = bindings.into_manifest(TranscriptBindingManifest::standard_for_batch_opening(live));
    assert(bridge_bindings_for(gb, extraction@, opened_values@, fri_commit_phase_commitments@, fri_final_poly@, fri_log_arities@));
    assert(binding_is(gr, DOMAIN_RANDOMIZER_COMMITMENT, extraction@.randomizer_commit));
    m
}

/// The bridge's three invariants, checked in order and failing fast:
/// provenance (backend constants and the advisory), then the manifest's
/// exact-presence check, then byte-faithful replay of the event log.
pub open spec fn harness_verdict(
    profile: ReferenceHidingFriPcsProfile,
    manifest_check: Result<(), TranscriptBindingError>,
    events: Seq<ByteTranscriptEvent>,
) -> Result<(), HarnessError> {
    match backend_verdict(profile) {
        Err(e) => Err(HarnessError::Provenance(e)),
        Ok(_) => match manifest_check {
            Err(m) => Err(HarnessError::Manifest(m)),
            Ok(_) => match replay_outcome(events) {
                Err(x) => Err(HarnessError::Replay(x)),
                Ok(_) => Ok(()),
            },
        },
    }
}

/// The three bridge invariants over one prove invocation's artifacts: the
/// hiding profile, the outcome of checking the absorbed binding record
/// against the composed manifest, and the recorded event log.
pub struct Plonky3ReplayHarness<'a> {
    profile: &'a ReferenceHidingFriPcsProfile,
    manifest_check: Result<(), TranscriptBindingError>,
    events: &'a [ByteTranscriptEvent],
}

impl<'a> Plonky3ReplayHarness<'a> {
    /// The profile.
    pub closed spec fn profile_view(&self) -> ReferenceHidingFriPcsProfile {
        *self.profile
    }

    /// The manifest check's outcome.
    pub closed spec fn manifest_view(&self) -> Result<(), TranscriptBindingError> {
        self.manifest_check
    }

    /// The event log.
    pub closed spec fn events_view(&self) -> Seq<ByteTranscriptEvent> {
        self.events@
    }

    /// Gathers the artifacts of one prove invocation; `manifest_check` is the
    /// outcome of checking the absorbed record against the manifest.
    pub fn new(
        profile: &'a ReferenceHidingFriPcsProfile,
        manifest_check: Result<(), TranscriptBindingError>,
        events: &'a [ByteTranscriptEvent],
    ) -> (h: Self)
        ensures
            h.profile_view() == *profile,
            h.manifest_view() == manifest_check,
            h.events_view() == events@,
    {
        Plonky3ReplayHarness { profile, manifest_check, events }
    }

    /// Invariant 1: the profile matches the pinned backend and the advisory passes.
    pub fn verify_provenance(&self) -> (r: Result<(), HarnessError>)
        ensures
            r == match backend_verdict(self.profile_view()) {
                Err(e) => Err::<(), HarnessError>(HarnessError::Provenance(e)),
                Ok(_) => Ok(()),
            },
    {
        match verify_profile_matches_backend(self.profile) {
            Err(e) => Err(HarnessError::Provenance(e)),
            Ok(()) => Ok(()),
        }
    }

    /// Invariant 2: every manifest binding is present in the record.
    pub fn verify_manifest(&self) -> (r: Result<(), HarnessError>)
        ensures
            r == match self.manifest_view() {
                Err(m) => Err::<(), HarnessError>(HarnessError::Manifest(m)),
                Ok(_) => Ok(()),
            },
    {
        match &self.manifest_check {
            Err(m) => Err(HarnessError::Manifest(m.duplicate())),
            Ok(()) => Ok(()),
        }
    }

    /// Invariant 3: the event log replays byte for byte through a fresh challenger.
    pub fn verify_byte_equivalence(&self) -> (r: Result<(), HarnessError>)
        ensures
            r == match replay_outcome(self.events_view()) {
                Err(x) => Err::<(), HarnessError>(HarnessError::Replay(x)),
                Ok(_) => Ok(()),
            },
    {
        match verify_byte_equivalence(self.events) {
            Err(x) => Err(HarnessError::Replay(x)),
            Ok(()) => Ok(()),
        }
    }

    /// Runs the three invariants in order and returns the first failure.
    pub fn verify(&self) -> (r: Result<(), HarnessError>)
        ensures
            r == harness_verdict(self.profile_view(), self.manifest_view(), self.events_view()),
    {
        match self.verify_provenance() {
            Err(e) => return Err(e),
            Ok(()) => {},
        }
        match self.verify_manifest() {
            Err(e) => return Err(e),
            Ok(()) => {},
        }
        self.verify_byte_equivalence()
    }
}

/// The first two steps of the pre-grind bridge: trim the event log to its
/// longest byte-equivalent prefix, then extract the SHROUD-stage slices from
/// that prefix. Returns the extraction and the prefix length; an extraction
/// failure is reported as [`PreGrindBridgeError::Extraction`].
pub fn extract_clean_pre_grind_prefix(
    events: &[ByteTranscriptEvent],
    shape: &LiveExtractorShape,
) -> (r: Result<(LivePreGrindExtraction, usize), PreGrindBridgeError>)
    ensures
        ({
            let n = match r {
                Ok((_, n)) => n as int,
                Err(_) => choose|n: int| clean_prefix_length(events@, n),
            };
            &&& clean_prefix_length(events@, n)
            &&& match r {
                Ok((x, _)) => pre_grind_outcome(events@.take(n), *shape) == Ok::<PreGrindSlices, LiveExtractionError>(x@),
                Err(e) => pre_grind_outcome(events@.take(n), *shape) matches Err(x)
                    && e == PreGrindBridgeError::Extraction(x),
            }
        }),
{
    let n = longest_byte_equivalent_prefix(events);
    let prefix = vstd::slice::slice_subrange(events, 0, n);
    assert(prefix@ =~= events@.take(n as int));
    proof {
        lemma_clean_prefix_length_unique(events@, n as int);
    }
    match extract_pre_grind_slices(prefix, shape) {
        Ok(x) => Ok((x, n)),
        Err(e) => Err(PreGrindBridgeError::Extraction(e)),
    }
}

/// The bridge's answer once extraction succeeded: success, or the harness
/// failure wrapped in [`PreGrindBridgeError::Harness`].
pub open spec fn bridge_from_harness(v: Result<(), HarnessError>) -> Result<(), PreGrindBridgeError> {
    match v {
        Ok(_) => Ok(()),
        Err(h) => Err(PreGrindBridgeError::Harness(h)),
    }
}

/// End-to-end pre-grind bridge, failing fast: trim `events` to the longest
/// byte-equivalent prefix, extract the SHROUD-stage slices from it (an
/// extraction failure is returned first), check the manifest against the
/// bindings composed from the extraction with `check_manifest`, then run
/// the three harness invariants (provenance, manifest, replay) over the
/// profile, that outcome and the prefix.
pub fn verify_pre_grind_bridge<F>(
    events: &[ByteTranscriptEvent],
    shape: &LiveExtractorShape,
    profile: &ReferenceHidingFriPcsProfile,
    check_manifest: F,
) -> (r: Result<(), PreGrindBridgeError>) where
    F: Fn(&LivePreGrindExtraction) -> Result<(), TranscriptBindingError>,

    requires
        forall|x: &LivePreGrindExtraction| #[trigger] check_manifest.requires((x,)),
    ensures
        ({
            let n = choose|n: int| clean_prefix_length(events@, n);
            match pre_grind_outcome(events@.take(n), *shape) {
                Err(x) => r == Err::<(), PreGrindBridgeError>(PreGrindBridgeError::Extraction(x)),
                Ok(slices) => exists|x: &LivePreGrindExtraction, m: Result<(), TranscriptBindingError>|
                    #![trigger check_manifest.ensures((x,), m)]
                    {
                        &&& x@ == slices
                        &&& check_manifest.ensures((x,), m)
                        &&& r == bridge_from_harness(harness_verdict(*profile, m, events@.take(n)))
                    },
            }
        }),
{
    let ghost n0 = choose|n: int| clean_prefix_length(events@, n);
    let (extraction, n) = match extract_clean_pre_grind_prefix(events, shape) {
        Ok(p) => p,
        Err(e) => {
            return Err(e);
        },
    };
    proof {
        lemma_clean_prefix_length_unique(events@, n as int);
    }
    assert(n0 == n as int);
    let prefix = vstd::slice::slice_subrange(events, 0, n);
    assert(prefix@ =~= events@.take(n as int));
    let manifest_check = check_manifest(&extraction);
    let harness = Plonky3ReplayHarness::new(profile, manifest_check, prefix);
    let r = match harness.verify() {
        Ok(()) => Ok(()),
        Err(h) => Err(PreGrindBridgeError::Harness(h)),
    };
    assert(check_manifest.ensures((&extraction,), manifest_check));
    r
}

/// `n` is the length of the longest prefix of `events` that replays.
pub open spec fn clean_prefix_length(events: Seq<ByteTranscriptEvent>, n: int) -> bool {
    &&& 0 <= n <= events.len()
    &&& replay_outcome(events.take(n)) is Ok
    &&& forall|m: int| n < m <= events.len() ==> replay_outcome(#[trigger] events.take(m)) is Err
}

/// There is exactly one longest replaying prefix length.
pub proof fn lemma_clean_prefix_length_unique(events: Seq<ByteTranscriptEvent>, n: int)
    requires
        clean_prefix_length(events, n),
    ensures
        forall|k: int| #[trigger] clean_prefix_length(events, k) ==> k == n,
{
}

} // verus!
