//! Plonky3-specific transcript bindings for the uni-stark prove/verify path.
//!
//! [`Plonky3UniStarkBindings`] holds one [`TranscriptBinding`] per Plonky3
//! transcript event that the canonical SHROUD schedule does not already
//! cover. Each binding is stamped with its slot's domain label at
//! construction, so recorded bytes cannot be cross-wired into another slot.
//! The Plonky3 slots compose with a base manifest: they are appended after
//! the base bindings of the sampling stage they precede.
use vstd::prelude::*;
use crate::binding::{TranscriptBinding, TranscriptBindingManifest};

verus! {

/// Domain label for Plonky3 event 1: the observed log extension degree.
pub const DOMAIN_PLONKY3_LOG_EXT_DEGREE: &'static str = "SHROUD_V1_PLONKY3_LOG_EXT_DEGREE";

/// Domain label for Plonky3 event 2: the observed log trace degree.
pub const DOMAIN_PLONKY3_LOG_DEGREE: &'static str = "SHROUD_V1_PLONKY3_LOG_DEGREE";

/// Domain label for Plonky3 event 3: the observed preprocessed width.
pub const DOMAIN_PLONKY3_PREPROCESSED_WIDTH: &'static str = "SHROUD_V1_PLONKY3_PREPROCESSED_WIDTH";

/// Domain label for Plonky3 event 4: the observed trace commitment.
pub const DOMAIN_PLONKY3_TRACE_COMMITMENT: &'static str = "SHROUD_V1_PLONKY3_TRACE_COMMITMENT";

/// Domain label for Plonky3 event 5: the observed preprocessed commitment (conditional).
pub const DOMAIN_PLONKY3_PREPROCESSED_COMMITMENT: &'static str =
    "SHROUD_V1_PLONKY3_PREPROCESSED_COMMITMENT";

/// Domain label for Plonky3 event 6: the observed AIR public values.
///
/// Distinct from `DOMAIN_PUBLIC_OPENINGS`, which holds the opened values at
/// the out-of-domain point; the AIR public inputs are an earlier event.
pub const DOMAIN_PLONKY3_AIR_PUBLIC_VALUES: &'static str = "SHROUD_V1_PLONKY3_AIR_PUBLIC_VALUES";

/// Domain label for Plonky3 event 8: the observed quotient commitment.
pub const DOMAIN_PLONKY3_QUOTIENT_COMMITMENT: &'static str = "SHROUD_V1_PLONKY3_QUOTIENT_COMMITMENT";

/// Domain label for Plonky3 event 12: the opened values at the out-of-domain
/// point across all rounds.
pub const DOMAIN_PLONKY3_OPENED_VALUES: &'static str = "SHROUD_V1_PLONKY3_OPENED_VALUES";

/// Domain label for Plonky3 event 14: the FRI commit-phase commitments in fold order.
pub const DOMAIN_PLONKY3_FRI_COMMIT_PHASE_COMMITMENTS: &'static str =
    "SHROUD_V1_PLONKY3_FRI_COMMIT_PHASE_COMMITMENTS";

/// Domain label for Plonky3 event 17: the FRI final polynomial.
pub const DOMAIN_PLONKY3_FRI_FINAL_POLY: &'static str = "SHROUD_V1_PLONKY3_FRI_FINAL_POLY";

/// Domain label for Plonky3 event 18: the FRI log-arities of the folding schedule.
pub const DOMAIN_PLONKY3_FRI_LOG_ARITIES: &'static str = "SHROUD_V1_PLONKY3_FRI_LOG_ARITIES";

/// One [`TranscriptBinding`] per uni-stark Plonky3 transcript event, each
/// stamped with its slot's domain label.
#[derive(Clone, Debug, PartialEq, Eq)]
pub struct Plonky3UniStarkBindings {
    log_ext_degree: TranscriptBinding,
    log_degree: TranscriptBinding,
    preprocessed_width: TranscriptBinding,
    preprocessed_commitment: Option<TranscriptBinding>,
    trace_commitment: TranscriptBinding,
    air_public_values: TranscriptBinding,
    quotient_commitment: TranscriptBinding,
    opened_values: TranscriptBinding,
    fri_commit_phase_commitments: TranscriptBinding,
    fri_final_poly: TranscriptBinding,
    fri_log_arities: TranscriptBinding,
}

/// `b` carries the label `label` and the bytes `bytes`.
pub open spec fn binding_is(b: TranscriptBinding, label: &'static str, bytes: Seq<u8>) -> bool {
    b.label_view() == label@ && b.bytes_view() == bytes
}

/// `a` and `b` carry the same label and the same bytes.
pub open spec fn same_binding(a: TranscriptBinding, b: TranscriptBinding) -> bool {
    a.label_view() == b.label_view() && a.bytes_view() == b.bytes_view()
}

impl Plonky3UniStarkBindings {
    /// Event 1 binding.
    pub closed spec fn log_ext_degree_binding(&self) -> TranscriptBinding {
        self.log_ext_degree
    }

    /// Event 2 binding.
    pub closed spec fn log_degree_binding(&self) -> TranscriptBinding {
        self.log_degree
    }

    /// Event 3 binding.
    pub closed spec fn preprocessed_width_binding(&self) -> TranscriptBinding {
        self.preprocessed_width
    }

    /// Event 4 binding.
    pub closed spec fn trace_commitment_binding(&self) -> TranscriptBinding {
        self.trace_commitment
    }

    /// Event 5 binding, when present.
    pub closed spec fn preprocessed_commitment_binding(&self) -> Option<TranscriptBinding> {
        self.preprocessed_commitment
    }

    /// Event 6 binding.
    pub closed spec fn air_public_values_binding(&self) -> TranscriptBinding {
        self.air_public_values
    }

    /// Event 8 binding.
    pub closed spec fn quotient_commitment_binding(&self) -> TranscriptBinding {
        self.quotient_commitment
    }

    /// Event 12 binding.
    pub closed spec fn opened_values_binding(&self) -> TranscriptBinding {
        self.opened_values
    }

    /// Event 14 binding.
    pub closed spec fn fri_commit_phase_commitments_binding(&self) -> TranscriptBinding {
        self.fri_commit_phase_commitments
    }

    /// Event 17 binding.
    pub closed spec fn fri_final_poly_binding(&self) -> TranscriptBinding {
        self.fri_final_poly
    }

    /// Event 18 binding.
    pub closed spec fn fri_log_arities_binding(&self) -> TranscriptBinding {
        self.fri_log_arities
    }

    /// The events required before the batching challenge, in order:
    /// events 1 to 4, event 5 when present, then event 6.
    pub open spec fn batching_events(&self) -> Seq<TranscriptBinding> {
        seq![
            self.log_ext_degree_binding(),
            self.log_degree_binding(),
            self.preprocessed_width_binding(),
            self.trace_commitment_binding(),
        ] + match self.preprocessed_commitment_binding() {
            Some(p) => seq![p],
            None => Seq::empty(),
        } + seq![self.air_public_values_binding()]
    }

    /// The events required before the out-of-domain point: event 8.
    pub open spec fn ood_events(&self) -> Seq<TranscriptBinding> {
        seq![self.quotient_commitment_binding()]
    }

    /// The events required before the masked relation, in order: events
    /// 12, 14, 17 and 18.
    pub open spec fn prove_events(&self) -> Seq<TranscriptBinding> {
        seq![
            self.opened_values_binding(),
            self.fri_commit_phase_commitments_binding(),
            self.fri_final_poly_binding(),
            self.fri_log_arities_binding(),
        ]
    }

    /// Every event in the order it fires on the prove path.
    pub open spec fn event_sequence(&self) -> Seq<TranscriptBinding> {
        self.batching_events() + self.ood_events() + self.prove_events()
    }

    /// Constructs a binding record from the recorded byte payloads of each
    /// event; the optional preprocessed commitment starts absent.
    pub fn new(
        log_ext_degree: Vec<u8>,
        log_degree: Vec<u8>,
        preprocessed_width: Vec<u8>,
        trace_commitment: Vec<u8>,
        air_public_values: Vec<u8>,
        quotient_commitment: Vec<u8>,
        opened_values: Vec<u8>,
        fri_commit_phase_commitments: Vec<u8>,
        fri_final_poly: Vec<u8>,
        fri_log_arities: Vec<u8>,
    ) -> (b: Self)
        ensures
            binding_is(b.log_ext_degree_binding(), DOMAIN_PLONKY3_LOG_EXT_DEGREE, log_ext_degree@),
            binding_is(b.log_degree_binding(), DOMAIN_PLONKY3_LOG_DEGREE, log_degree@),
            binding_is(b.preprocessed_width_binding(), DOMAIN_PLONKY3_PREPROCESSED_WIDTH, preprocessed_width@),
            binding_is(b.trace_commitment_binding(), DOMAIN_PLONKY3_TRACE_COMMITMENT, trace_commitment@),
            b.preprocessed_commitment_binding() is None,
            binding_is(b.air_public_values_binding(), DOMAIN_PLONKY3_AIR_PUBLIC_VALUES, air_public_values@),
            binding_is(b.quotient_commitment_binding(), DOMAIN_PLONKY3_QUOTIENT_COMMITMENT, quotient_commitment@),
            binding_is(b.opened_values_binding(), DOMAIN_PLONKY3_OPENED_VALUES, opened_values@),
            binding_is(
                b.fri_commit_phase_commitments_binding(),
                DOMAIN_PLONKY3_FRI_COMMIT_PHASE_COMMITMENTS,
                fri_commit_phase_commitments@,
            ),
            binding_is(b.fri_final_poly_binding(), DOMAIN_PLONKY3_FRI_FINAL_POLY, fri_final_poly@),
            binding_is(b.fri_log_arities_binding(), DOMAIN_PLONKY3_FRI_LOG_ARITIES, fri_log_arities@),
    {
        Plonky3UniStarkBindings {
            log_ext_degree: TranscriptBinding::new(DOMAIN_PLONKY3_LOG_EXT_DEGREE, log_ext_degree),
            log_degree: TranscriptBinding::new(DOMAIN_PLONKY3_LOG_DEGREE, log_degree),
            preprocessed_width: TranscriptBinding::new(DOMAIN_PLONKY3_PREPROCESSED_WIDTH, preprocessed_width),
            preprocessed_commitment: None,
            trace_commitment: TranscriptBinding::new(DOMAIN_PLONKY3_TRACE_COMMITMENT, trace_commitment),
            air_public_values: TranscriptBinding::new(DOMAIN_PLONKY3_AIR_PUBLIC_VALUES, air_public_values),
            quotient_commitment: TranscriptBinding::new(DOMAIN_PLONKY3_QUOTIENT_COMMITMENT, quotient_commitment),
            opened_values: TranscriptBinding::new(DOMAIN_PLONKY3_OPENED_VALUES, opened_values),
            fri_commit_phase_commitments: TranscriptBinding::new(
                DOMAIN_PLONKY3_FRI_COMMIT_PHASE_COMMITMENTS,
                fri_commit_phase_commitments,
            ),
            fri_final_poly: TranscriptBinding::new(DOMAIN_PLONKY3_FRI_FINAL_POLY, fri_final_poly),
            fri_log_arities: TranscriptBinding::new(DOMAIN_PLONKY3_FRI_LOG_ARITIES, fri_log_arities),
        }
    }

    /// Attaches the preprocessed-commitment binding (event 5), for AIRs
    /// with preprocessed columns; every other slot is unchanged.
    pub fn with_preprocessed_commitment(self, bytes: Vec<u8>) -> (b: Self)
        ensures
            b.preprocessed_commitment_binding() matches Some(p)
                && binding_is(p, DOMAIN_PLONKY3_PREPROCESSED_COMMITMENT, bytes@),
            b.log_ext_degree_binding() == self.log_ext_degree_binding(),
            b.log_degree_binding() == self.log_degree_binding(),
            b.preprocessed_width_binding() == self.preprocessed_width_binding(),
            b.trace_commitment_binding() == self.trace_commitment_binding(),
            b.air_public_values_binding() == self.air_public_values_binding(),
            b.quotient_commitment_binding() == self.quotient_commitment_binding(),
            b.opened_values_binding() == self.opened_values_binding(),
            b.fri_commit_phase_commitments_binding() == self.fri_commit_phase_commitments_binding(),
            b.fri_final_poly_binding() == self.fri_final_poly_binding(),
            b.fri_log_arities_binding() == self.fri_log_arities_binding(),
    {
        let mut b = self;
        b.preprocessed_commitment = Some(TranscriptBinding::new(DOMAIN_PLONKY3_PREPROCESSED_COMMITMENT, bytes));
        b
    }

    /// Event 1 binding.
    pub fn log_ext_degree(&self) -> (r: &TranscriptBinding)
        ensures
            *r == self.log_ext_degree_binding(),
    {
        &self.log_ext_degree
    }

    /// Event 2 binding.
    pub fn log_degree(&self) -> (r: &TranscriptBinding)
        ensures
            *r == self.log_degree_binding(),
    {
        &self.log_degree
    }

    /// Event 3 binding.
    pub fn preprocessed_width(&self) -> (r: &TranscriptBinding)
        ensures
            *r == self.preprocessed_width_binding(),
    {
        &self.preprocessed_width
    }

    /// Event 4 binding.
    pub fn trace_commitment(&self) -> (r: &TranscriptBinding)
        ensures
            *r == self.trace_commitment_binding(),
    {
        &self.trace_commitment
    }

    /// Event 5 binding (`None` for AIRs with no preprocessed columns).
    pub fn preprocessed_commitment(&self) -> (r: Option<&TranscriptBinding>)
        ensures
            match r {
                Some(p) => self.preprocessed_commitment_binding() == Some(*p),
                None => self.preprocessed_commitment_binding() is None,
            },
    {
        match &self.preprocessed_commitment {
            Some(p) => Some(p),
            None => None,
        }
    }

    /// Event 6 binding.
    pub fn air_public_values(&self) -> (r: &TranscriptBinding)
        ensures
            *r == self.air_public_values_binding(),
    {
        &self.air_public_values
    }

    /// Event 8 binding.
    pub fn quotient_commitment(&self) -> (r: &TranscriptBinding)
        ensures
            *r == self.quotient_commitment_binding(),
    {
        &self.quotient_commitment
    }

    /// Event 12 binding.
    pub fn opened_values(&self) -> (r: &TranscriptBinding)
        ensures
            *r == self.opened_values_binding(),
    {
        &self.opened_values
    }

    /// Event 14 binding.
    pub fn fri_commit_phase_commitments(&self) -> (r: &TranscriptBinding)
        ensures
            *r == self.fri_commit_phase_commitments_binding(),
    {
        &self.fri_commit_phase_commitments
    }

    /// Event 17 binding.
    pub fn fri_final_poly(&self) -> (r: &TranscriptBinding)
        ensures
            *r == self.fri_final_poly_binding(),
    {
        &self.fri_final_poly
    }

    /// Event 18 binding.
    pub fn fri_log_arities(&self) -> (r: &TranscriptBinding)
        ensures
            *r == self.fri_log_arities_binding(),
    {
        &self.fri_log_arities
    }

    /// Composes these bindings onto a base manifest (typically the canonical
    /// SHROUD batch-opening manifest): each stage keeps its base bindings
    /// and gains the Plonky3 events that precede it, appended in order.
    pub fn into_manifest(self, base: TranscriptBindingManifest) -> (m: TranscriptBindingManifest)
        ensures
            m.batching_view() == base.batching_view() + self.batching_events(),
            m.ood_view() == base.ood_view() + self.ood_events(),
            m.prove_view() == base.prove_view() + self.prove_events(),
    {
        let ghost me = self;
        let Plonky3UniStarkBindings {
            log_ext_degree,
            log_degree,
            preprocessed_width,
            preprocessed_commitment,
            trace_commitment,
            air_public_values,
            quotient_commitment,
            opened_values,
            fri_commit_phase_commitments,
            fri_final_poly,
            fri_log_arities,
        } = self;
        let mut m = base
            .with_before_batching_challenge(log_ext_degree)
            .with_before_batching_challenge(log_degree)
            .with_before_batching_challenge(preprocessed_width)
            .with_before_batching_challenge(trace_commitment);
        match preprocessed_commitment {
            Some(pre) => {
                m = m.with_before_batching_challenge(pre);
            },
            None => {},
        }
        m = m.with_before_batching_challenge(air_public_values);
        m = m.with_before_ood_point(quotient_commitment);
        m = m.with_before_prove_masked(opened_values)
            .with_before_prove_masked(fri_commit_phase_commitments)
            .with_before_prove_masked(fri_final_poly)
            .with_before_prove_masked(fri_log_arities);
        assert(m.batching_view() =~= base.batching_view() + me.batching_events());
        assert(m.ood_view() =~= base.ood_view() + me.ood_events());
        assert(m.prove_view() =~= base.prove_view() + me.prove_events());
        m
    }

    /// Appends a copy of every event binding to `record` in the order the
    /// events fire on the prove path: 1, 2, 3, 4, 5 (if present), 6, 8, 12,
    /// 14, 17, 18.
    pub fn absorb_into(&self, record: &mut Vec<TranscriptBinding>)
        ensures
            final(record)@.len() == old(record)@.len() + self.event_sequence().len(),
            final(record)@.subrange(0, old(record)@.len() as int) == old(record)@,
            forall|i: int|
                0 <= i < self.event_sequence().len() ==> same_binding(
                    #[trigger] final(record)@[old(record)@.len() + i],
                    self.event_sequence()[i],
                ),
    {
        let ghost start = old(record)@;
        let mut events: Vec<&TranscriptBinding> = Vec::new();
        events.push(&self.log_ext_degree);
        events.push(&self.log_degree);
        events.push(&self.preprocessed_width);
        events.push(&self.trace_commitment);
        match &self.preprocessed_commitment {
            Some(p) => {
                events.push(p);
            },
            None => {},
        }
        events.push(&self.air_public_values);
        events.push(&self.quotient_commitment);
        events.push(&self.opened_values);
        events.push(&self.fri_commit_phase_commitments);
        events.push(&self.fri_final_poly);
        events.push(&self.fri_log_arities);
        assert(events@.len() == self.event_sequence().len());
        assert forall|i: int| 0 <= i < events@.len() implies *events@[i] == self.event_sequence()[i] by {
            assert(self.event_sequence() =~= self.batching_events() + self.ood_events() + self.prove_events());
        }
        let mut k: usize = 0;
        while k < events.len()
            invariant
                0 <= k <= events@.len(),
                events@.len() == self.event_sequence().len(),
                forall|i: int| 0 <= i < events@.len() ==> *events@[i] == self.event_sequence()[i],
                record@.len() == start.len() + k,
                record@.subrange(0, start.len() as int) == start,
                forall|i: int| 0 <= i < k ==> same_binding(#[trigger] record@[start.len() + i], self.event_sequence()[i]),
            decreases events@.len() - k,
        {
            let copy = events[k].duplicate();
            let ghost before = record@;
            record.push(copy);
            assert(record@.subrange(0, start.len() as int) =~= before.subrange(0, start.len() as int));
            k = k + 1;
        }
    }
}

} // verus!
