//! Structural extraction of the pre-grind SHROUD-stage byte slices from a
//! recorded observe/sample event log.
//!
//! The walk consumes events in the order the uni-stark prover fires them:
//!
//! 1. a run of `Observed` events totalling the `log_ext_degree` size,
//! 2. the same for `log_degree`,
//! 3. the same for `preprocessed_width`,
//! 4. the same for the trace commitment,
//! 5. optionally, the same for the preprocessed commitment,
//! 6. optionally (non-zero size), the same for the AIR public values,
//! 7. one or more `Sampled` events (the batching challenge),
//! 8. a run for the quotient commitment,
//! 9. a run for the randomizer commitment (always present: hiding only),
//! 10. one or more `Sampled` events (the out-of-domain point).
//!
//! A block read refuses to cross a `Sampled` event or to overshoot its byte
//! budget, so a misaligned boundary, an inserted observation, a moved sample
//! or a resized commitment is reported before any binding is built.
use vstd::prelude::*;
use crate::bytes::append_bytes;
use crate::recorder::ByteTranscriptEvent;
use crate::text::{decimal, push_decimal};

verus! {

/// Named byte slices extracted from a pre-grind event log.
#[derive(Debug, Clone, PartialEq, Eq)]
pub struct LivePreGrindExtraction {
    /// The `log_ext_degree` payload.
    pub log_ext_degree: Vec<u8>,
    /// The `log_degree` payload.
    pub log_degree: Vec<u8>,
    /// The `preprocessed_width` payload.
    pub preprocessed_width: Vec<u8>,
    /// The trace-commitment MMCS root.
    pub trace_commit: Vec<u8>,
    /// The preprocessed-commitment MMCS root, when the AIR has preprocessed columns.
    pub preprocessed_commit: Option<Vec<u8>>,
    /// The AIR public-values payload; empty when there are none.
    pub air_public_values: Vec<u8>,
    /// The quotient-commitment MMCS root.
    pub quotient_commit: Vec<u8>,
    /// The randomizer-commitment MMCS root.
    pub randomizer_commit: Vec<u8>,
}

/// The byte contents of a [`LivePreGrindExtraction`].
pub struct PreGrindSlices {
    /// The `log_ext_degree` payload.
    pub log_ext_degree: Seq<u8>,
    /// The `log_degree` payload.
    pub log_degree: Seq<u8>,
    /// The `preprocessed_width` payload.
    pub preprocessed_width: Seq<u8>,
    /// The trace-commitment root.
    pub trace_commit: Seq<u8>,
    /// The preprocessed-commitment root, if any.
    pub preprocessed_commit: Option<Seq<u8>>,
    /// The AIR public-values payload.
    pub air_public_values: Seq<u8>,
    /// The quotient-commitment root.
    pub quotient_commit: Seq<u8>,
    /// The randomizer-commitment root.
    pub randomizer_commit: Seq<u8>,
}

impl View for LivePreGrindExtraction {
    type V = PreGrindSlices;

    open spec fn view(&self) -> PreGrindSlices {
        PreGrindSlices {
            log_ext_degree: self.log_ext_degree@,
            log_degree: self.log_degree@,
            preprocessed_width: self.preprocessed_width@,
            trace_commit: self.trace_commit@,
            preprocessed_commit: match self.preprocessed_commit {
                Some(v) => Some(v@),
                None => None,
            },
            air_public_values: self.air_public_values@,
            quotient_commit: self.quotient_commit@,
            randomizer_commit: self.randomizer_commit@,
        }
    }
}

/// Byte sizes of each pre-grind block, and whether the AIR contributes a
/// preprocessed commitment.
#[derive(Debug, Clone, PartialEq, Eq)]
pub struct LiveExtractorShape {
    /// Byte size of the `log_ext_degree` payload.
    pub log_ext_degree_bytes: usize,
    /// Byte size of the `log_degree` payload.
    pub log_degree_bytes: usize,
    /// Byte size of the `preprocessed_width` payload.
    pub preprocessed_width_bytes: usize,
    /// Byte size of the trace-commitment root.
    pub trace_commit_bytes: usize,
    /// `Some(n)` iff an `n`-byte preprocessed-commitment root follows the
    /// trace commitment.
    pub preprocessed_commit_bytes: Option<usize>,
    /// Byte size of the AIR public-values payload (`0` when there are none).
    pub air_public_values_bytes: usize,
    /// Byte size of the quotient-commitment root.
    pub quotient_commit_bytes: usize,
    /// Byte size of the randomizer-commitment root.
    pub randomizer_commit_bytes: usize,
}

impl LiveExtractorShape {
    /// The shape of the reference deployment: 4-byte metadata words,
    /// 32-byte Keccak-256 roots, no preprocessed columns and no AIR public
    /// values.
    pub fn standard() -> (s: Self)
        ensures
            s == (LiveExtractorShape {
                log_ext_degree_bytes: 4,
                log_degree_bytes: 4,
                preprocessed_width_bytes: 4,
                trace_commit_bytes: 32,
                preprocessed_commit_bytes: None,
                air_public_values_bytes: 0,
                quotient_commit_bytes: 32,
                randomizer_commit_bytes: 32,
            }),
    {
        LiveExtractorShape {
            log_ext_degree_bytes: 4,
            log_degree_bytes: 4,
            preprocessed_width_bytes: 4,
            trace_commit_bytes: 32,
            preprocessed_commit_bytes: None,
            air_public_values_bytes: 0,
            quotient_commit_bytes: 32,
            randomizer_commit_bytes: 32,
        }
    }
}

impl Default for LiveExtractorShape {
    fn default() -> (s: Self)
        ensures
            s == (LiveExtractorShape {
                log_ext_degree_bytes: 4,
                log_degree_bytes: 4,
                preprocessed_width_bytes: 4,
                trace_commit_bytes: 32,
                preprocessed_commit_bytes: None,
                air_public_values_bytes: 0,
                quotient_commit_bytes: 32,
                randomizer_commit_bytes: 32,
            }),
    {
        Self::standard()
    }
}

/// Why an event log does not have the pre-grind shape.
#[derive(Debug, Clone, PartialEq, Eq)]
pub enum LiveExtractionError {
    /// The log ended before the block was filled.
    TruncatedLog {
        /// Name of the block being read.
        reading: &'static str,
        /// Bytes accumulated so far.
        had: usize,
        /// Bytes expected for this block.
        expected: usize,
    },
    /// A `Sampled` event interrupted an observe block: a Fiat-Shamir
    /// ordering violation.
    SampledInObserveBlock {
        /// Name of the block being read.
        reading: &'static str,
        /// Bytes accumulated before the `Sampled` event.
        had: usize,
        /// Bytes expected for this block.
        expected: usize,
        /// Length of the offending `Sampled` event.
        sampled_len: usize,
    },
    /// An `Observed` event would cross the block boundary.
    ObservedBlockOvershoot {
        /// Name of the block being read.
        reading: &'static str,
        /// Bytes accumulated before this event.
        had: usize,
        /// Length of the offending event.
        event_len: usize,
        /// Bytes expected for this block.
        expected: usize,
    },
    /// No `Sampled` event at a challenge-sampling point.
    MissingChallengeSample {
        /// Name of the missing challenge.
        challenge: &'static str,
    },
}

/// Human-readable rendering of an extraction error.
pub open spec fn extraction_error_text(e: LiveExtractionError) -> Seq<char> {
    match e {
        LiveExtractionError::TruncatedLog { reading, had, expected } =>
            "[live_extractor] event log exhausted while reading "@ + reading@ + " (had "@
                + decimal(had as nat) + " of "@ + decimal(expected as nat) + " bytes)"@,
        LiveExtractionError::SampledInObserveBlock { reading, had, expected, sampled_len } =>
            "[live_extractor] Sampled("@ + decimal(sampled_len as nat)
                + ") interrupts observe-block for "@ + reading@ + " after "@ + decimal(had as nat)
                + " of "@ + decimal(expected as nat) + " bytes \u{2014} Fiat-Shamir order violation"@,
        LiveExtractionError::ObservedBlockOvershoot { reading, had, event_len, expected } =>
            "[live_extractor] Observed event for "@ + reading@ + " crosses block boundary (had "@
                + decimal(had as nat) + " bytes, event adds "@ + decimal(event_len as nat)
                + ", budget "@ + decimal(expected as nat) + ")"@,
        LiveExtractionError::MissingChallengeSample { challenge } =>
            "[live_extractor] expected >=1 Sampled events for "@ + challenge@ + ", found none"@,
    }
}

impl LiveExtractionError {
    /// Human-readable description of the error.
    pub fn message(&self) -> (r: String)
        ensures
            r@ == extraction_error_text(*self),
    {
        let mut s = String::new();
        match self {
            LiveExtractionError::TruncatedLog { reading, had, expected } => {
                s.append("[live_extractor] event log exhausted while reading ");
                s.append(reading);
                s.append(" (had ");
                push_decimal(&mut s, *had as u64);
                s.append(" of ");
                push_decimal(&mut s, *expected as u64);
                s.append(" bytes)");
            },
            LiveExtractionError::SampledInObserveBlock { reading, had, expected, sampled_len } => {
                s.append("[live_extractor] Sampled(");
                push_decimal(&mut s, *sampled_len as u64);
                s.append(") interrupts observe-block for ");
                s.append(reading);
                s.append(" after ");
                push_decimal(&mut s, *had as u64);
                s.append(" of ");
                push_decimal(&mut s, *expected as u64);
                s.append(" bytes \u{2014} Fiat-Shamir order violation");
            },
            LiveExtractionError::ObservedBlockOvershoot { reading, had, event_len, expected } => {
                s.append("[live_extractor] Observed event for ");
                s.append(reading);
                s.append(" crosses block boundary (had ");
                push_decimal(&mut s, *had as u64);
                s.append(" bytes, event adds ");
                push_decimal(&mut s, *event_len as u64);
                s.append(", budget ");
                push_decimal(&mut s, *expected as u64);
                s.append(")");
            },
            LiveExtractionError::MissingChallengeSample { challenge } => {
                s.append("[live_extractor] expected >=1 Sampled events for ");
                s.append(challenge);
                s.append(", found none");
            },
        }
        assert(s@ =~= extraction_error_text(*self));
        s
    }
}

/// Reads an observe block of `expected` bytes from event `pos` on, having
/// accumulated `acc` already: the block and the position after it, or the
/// first drift.
pub open spec fn read_block(
    events: Seq<ByteTranscriptEvent>,
    pos: int,
    acc: Seq<u8>,
    expected: usize,
    reading: &'static str,
) -> Result<(Seq<u8>, int), LiveExtractionError>
    decreases events.len() - pos,
{
    if acc.len() >= expected {
        Ok((acc, pos))
    } else if pos < 0 || pos >= events.len() {
        Err(LiveExtractionError::TruncatedLog { reading, had: acc.len() as usize, expected })
    } else {
        match events[pos] {
            ByteTranscriptEvent::Observed(b) => if acc.len() + b@.len() > expected {
                Err(
                    LiveExtractionError::ObservedBlockOvershoot {
                        reading,
                        had: acc.len() as usize,
                        event_len: b@.len() as usize,
                        expected,
                    },
                )
            } else {
                read_block(events, pos + 1, acc + b@, expected, reading)
            },
            ByteTranscriptEvent::Sampled(b) => Err(
                LiveExtractionError::SampledInObserveBlock {
                    reading,
                    had: acc.len() as usize,
                    expected,
                    sampled_len: b@.len() as usize,
                },
            ),
        }
    }
}

/// The first position at or after `pos` that does not hold a `Sampled` event.
pub open spec fn sampled_run_end(events: Seq<ByteTranscriptEvent>, pos: int) -> int
    decreases events.len() - pos,
{
    if 0 <= pos < events.len() && events[pos] is Sampled {
        sampled_run_end(events, pos + 1)
    } else {
        pos
    }
}

/// Consumes one or more `Sampled` events at `pos`: the position after
/// them, or the missing-sample error.
pub open spec fn read_samples(events: Seq<ByteTranscriptEvent>, pos: int, challenge: &'static str) -> Result<int, LiveExtractionError> {
    let end = sampled_run_end(events, pos);
    if end == pos {
        Err(LiveExtractionError::MissingChallengeSample { challenge })
    } else {
        Ok(end)
    }
}

/// The outcome of the structural walk over `events` with `shape`.
pub open spec fn pre_grind_outcome(events: Seq<ByteTranscriptEvent>, shape: LiveExtractorShape) -> Result<PreGrindSlices, LiveExtractionError> {
    match read_block(events, 0, Seq::empty(), shape.log_ext_degree_bytes, "log_ext_degree") {
        Err(e) => Err(e),
        Ok((log_ext_degree, p1)) => match read_block(events, p1, Seq::empty(), shape.log_degree_bytes, "log_degree") {
            Err(e) => Err(e),
            Ok((log_degree, p2)) => match read_block(events, p2, Seq::empty(), shape.preprocessed_width_bytes, "preprocessed_width") {
                Err(e) => Err(e),
                Ok((preprocessed_width, p3)) => match read_block(events, p3, Seq::empty(), shape.trace_commit_bytes, "trace_commit") {
                    Err(e) => Err(e),
                    Ok((trace_commit, p4)) => {
                        let pre = match shape.preprocessed_commit_bytes {
                            Some(n) => match read_block(events, p4, Seq::empty(), n, "preprocessed_commit") {
                                Err(e) => Err(e),
                                Ok((b, p)) => Ok((Some(b), p)),
                            },
                            None => Ok((None::<Seq<u8>>, p4)),
                        };
                        match pre {
                            Err(e) => Err(e),
                            Ok((preprocessed_commit, p5)) => {
                                let apv = if shape.air_public_values_bytes > 0 {
                                    read_block(events, p5, Seq::empty(), shape.air_public_values_bytes, "air_public_values")
                                } else {
                                    Ok((Seq::<u8>::empty(), p5))
                                };
                                match apv {
                                    Err(e) => Err(e),
                                    Ok((air_public_values, p6)) => match read_samples(events, p6, "alpha (batching challenge)") {
                                        Err(e) => Err(e),
                                        Ok(p7) => match read_block(events, p7, Seq::empty(), shape.quotient_commit_bytes, "quotient_commit") {
                                            Err(e) => Err(e),
                                            Ok((quotient_commit, p8)) => match read_block(events, p8, Seq::empty(), shape.randomizer_commit_bytes, "randomizer_commit") {
                                                Err(e) => Err(e),
                                                Ok((randomizer_commit, p9)) => match read_samples(events, p9, "zeta (OOD point)") {
                                                    Err(e) => Err(e),
                                                    Ok(_) => Ok(PreGrindSlices {
                                                        log_ext_degree,
                                                        log_degree,
                                                        preprocessed_width,
                                                        trace_commit,
                                                        preprocessed_commit,
                                                        air_public_values,
                                                        quotient_commit,
                                                        randomizer_commit,
                                                    }),
                                                },
                                            },
                                        },
                                    },
                                }
                            },
                        }
                    },
                },
            },
        },
    }
}

/// Reads an observe block of `expected` bytes starting at event `pos`.
fn read_observed_block(
    events: &[ByteTranscriptEvent],
    pos: usize,
    expected: usize,
    reading: &'static str,
) -> (r: Result<(Vec<u8>, usize), LiveExtractionError>)
    requires
        pos <= events@.len(),
    ensures
        match r {
            Ok((b, p)) => read_block(events@, pos as int, Seq::empty(), expected, reading)
                == Ok::<(Seq<u8>, int), LiveExtractionError>((b@, p as int)) && p <= events@.len(),
            Err(e) => read_block(events@, pos as int, Seq::empty(), expected, reading)
                == Err::<(Seq<u8>, int), LiveExtractionError>(e),
        },
{
    let mut out: Vec<u8> = Vec::new();
    let mut p = pos;
    while out.len() < expected
        invariant
            pos <= p <= events@.len(),
            out@.len() <= expected,
            read_block(events@, pos as int, Seq::empty(), expected, reading) == read_block(
                events@,
                p as int,
                out@,
                expected,
                reading,
            ),
        decreases events@.len() - p,
    {
        if p >= events.len() {
            return Err(LiveExtractionError::TruncatedLog { reading, had: out.len(), expected });
        }
        match &events[p] {
            ByteTranscriptEvent::Observed(bytes) => {
                if bytes.len() > expected - out.len() {
                    return Err(LiveExtractionError::ObservedBlockOvershoot {
                        reading,
                        had: out.len(),
                        event_len: bytes.len(),
                        expected,
                    });
                }
                append_bytes(&mut out, bytes.as_slice());
            },
            ByteTranscriptEvent::Sampled(bytes) => {
                return Err(LiveExtractionError::SampledInObserveBlock {
                    reading,
                    had: out.len(),
                    expected,
                    sampled_len: bytes.len(),
                });
            },
        }
        p = p + 1;
    }
    Ok((out, p))
}

/// Consumes one or more `Sampled` events starting at event `pos`.
fn read_sampled_block(events: &[ByteTranscriptEvent], pos: usize, challenge: &'static str) -> (r: Result<usize, LiveExtractionError>)
    requires
        pos <= events@.len(),
    ensures
        match r {
            Ok(p) => read_samples(events@, pos as int, challenge) == Ok::<int, LiveExtractionError>(p as int)
                && p <= events@.len(),
            Err(e) => read_samples(events@, pos as int, challenge) == Err::<int, LiveExtractionError>(e),
        },
{
    let mut p = pos;
    while p < events.len() && matches!(events[p], ByteTranscriptEvent::Sampled(_))
        invariant
            pos <= p <= events@.len(),
            sampled_run_end(events@, pos as int) == sampled_run_end(events@, p as int),
        decreases events@.len() - p,
    {
        p = p + 1;
    }
    if p == pos {
        Err(LiveExtractionError::MissingChallengeSample { challenge })
    } else {
        Ok(p)
    }
}

/// Walks `events` structurally and extracts the named SHROUD-stage byte
/// slices, in the order the module documentation lists; returns the first
/// drift as a typed error.
pub fn extract_pre_grind_slices(
    events: &[ByteTranscriptEvent],
    shape: &LiveExtractorShape,
) -> (r: Result<LivePreGrindExtraction, LiveExtractionError>)
    ensures
        match r {
            Ok(x) => pre_grind_outcome(events@, *shape) == Ok::<PreGrindSlices, LiveExtractionError>(x@),
            Err(e) => pre_grind_outcome(events@, *shape) == Err::<PreGrindSlices, LiveExtractionError>(e),
        },
{
    let (log_ext_degree, p1) = match read_observed_block(events, 0, shape.log_ext_degree_bytes, "log_ext_degree") {
        Ok(v) => v,
        Err(e) => return Err(e),
    };
    let (log_degree, p2) = match read_observed_block(events, p1, shape.log_degree_bytes, "log_degree") {
        Ok(v) => v,
        Err(e) => return Err(e),
    };
    let (preprocessed_width, p3) = match read_observed_block(events, p2, shape.preprocessed_width_bytes, "preprocessed_width") {
        Ok(v) => v,
        Err(e) => return Err(e),
    };
    let (trace_commit, p4) = match read_observed_block(events, p3, shape.trace_commit_bytes, "trace_commit") {
        Ok(v) => v,
        Err(e) => return Err(e),
    };
    let (preprocessed_commit, p5) = match shape.preprocessed_commit_bytes {
        Some(n) => match read_observed_block(events, p4, n, "preprocessed_commit") {
            Ok((b, p)) => (Some(b), p),
            Err(e) => return Err(e),
        },
        None => (None, p4),
    };
    let (air_public_values, p6) = if shape.air_public_values_bytes > 0 {
        match read_observed_block(events, p5, shape.air_public_values_bytes, "air_public_values") {
            Ok(v) => v,
            Err(e) => return Err(e),
        }
    } else {
        (Vec::new(), p5)
    };
    let p7 = match read_sampled_block(events, p6, "alpha (batching challenge)") {
        Ok(p) => p,
        Err(e) => return Err(e),
    };
    let (quotient_commit, p8) = match read_observed_block(events, p7, shape.quotient_commit_bytes, "quotient_commit") {
        Ok(v) => v,
        Err(e) => return Err(e),
    };
    let (randomizer_commit, p9) = match read_observed_block(events, p8, shape.randomizer_commit_bytes, "randomizer_commit") {
        Ok(v) => v,
        Err(e) => return Err(e),
    };
    match read_sampled_block(events, p9, "zeta (OOD point)") {
        Ok(_) => {},
        Err(e) => return Err(e),
    }
    let x = LivePreGrindExtraction {
        log_ext_degree,
        log_degree,
        preprocessed_width,
        trace_commit,
        preprocessed_commit,
        air_public_values,
        quotient_commit,
        randomizer_commit,
    };
    assert(x@.air_public_values =~= air_public_values@);
    Ok(x)
}

/// The observe blocks before the batching challenge, in log order: the
/// three metadata words, the trace root, the preprocessed root if any, and
/// the AIR public values if non-empty.
pub open spec fn leading_blocks(x: PreGrindSlices) -> Seq<Seq<u8>> {
    seq![x.log_ext_degree, x.log_degree, x.preprocessed_width, x.trace_commit] + match x.preprocessed_commit {
        Some(p) => seq![p],
        None => Seq::empty(),
    } + if x.air_public_values.len() > 0 {
        seq![x.air_public_values]
    } else {
        Seq::empty()
    }
}

/// Event `i` is an `Observed` event carrying exactly `bytes`.
pub open spec fn observed_at(events: Seq<ByteTranscriptEvent>, i: int, bytes: Seq<u8>) -> bool {
    events[i] matches ByteTranscriptEvent::Observed(b) && b@ == bytes
}

/// The slices have the sizes the shape prescribes, every fixed block and
/// the preprocessed root (when present) being non-empty.
pub open spec fn slices_fit_shape(x: PreGrindSlices, shape: LiveExtractorShape) -> bool {
    &&& x.log_ext_degree.len() == shape.log_ext_degree_bytes > 0
    &&& x.log_degree.len() == shape.log_degree_bytes > 0
    &&& x.preprocessed_width.len() == shape.preprocessed_width_bytes > 0
    &&& x.trace_commit.len() == shape.trace_commit_bytes > 0
    &&& match (x.preprocessed_commit, shape.preprocessed_commit_bytes) {
        (Some(p), Some(n)) => p.len() == n > 0,
        (None, None) => true,
        _ => false,
    }
    &&& x.air_public_values.len() == shape.air_public_values_bytes
    &&& x.quotient_commit.len() == shape.quotient_commit_bytes > 0
    &&& x.randomizer_commit.len() == shape.randomizer_commit_bytes > 0
}

/// A block held whole by one `Observed` event is read back exactly.
proof fn lemma_read_whole_block(
    events: Seq<ByteTranscriptEvent>,
    pos: int,
    bytes: Seq<u8>,
    expected: usize,
    reading: &'static str,
)
    requires
        0 <= pos < events.len(),
        observed_at(events, pos, bytes),
        bytes.len() == expected > 0,
    ensures
        read_block(events, pos, Seq::empty(), expected, reading) == Ok::<(Seq<u8>, int), LiveExtractionError>((bytes, pos + 1)),
{
    assert(Seq::<u8>::empty() + bytes =~= bytes);
    assert(read_block(events, pos + 1, bytes, expected, reading) == Ok::<(Seq<u8>, int), LiveExtractionError>((bytes, pos + 1)));
}

/// A single `Sampled` event followed by a non-sampled event, or by the end
/// of the log, is one challenge sample.
proof fn lemma_read_one_sample(events: Seq<ByteTranscriptEvent>, pos: int, challenge: &'static str)
    requires
        0 <= pos < events.len(),
        events[pos] is Sampled,
        pos + 1 == events.len() || events[pos + 1] is Observed,
    ensures
        read_samples(events, pos, challenge) == Ok::<int, LiveExtractionError>(pos + 1),
{
    assert(sampled_run_end(events, pos + 1) == pos + 1);
}

/// Extraction gives back what was observed: a log made of the blocks of
/// `x`, each observed whole in schema order, with one sample for each
/// challenge, extracts to exactly `x`.
pub proof fn law_extraction_recovers_blocks(
    events: Seq<ByteTranscriptEvent>,
    shape: LiveExtractorShape,
    x: PreGrindSlices,
)
    requires
        slices_fit_shape(x, shape),
        events.len() == leading_blocks(x).len() + 4,
        forall|i: int| 0 <= i < leading_blocks(x).len() ==> observed_at(events, i, #[trigger] leading_blocks(x)[i]),
        events[leading_blocks(x).len() as int] is Sampled,
        observed_at(events, leading_blocks(x).len() as int + 1, x.quotient_commit),
        observed_at(events, leading_blocks(x).len() as int + 2, x.randomizer_commit),
        events[leading_blocks(x).len() as int + 3] is Sampled,
    ensures
        pre_grind_outcome(events, shape) == Ok::<PreGrindSlices, LiveExtractionError>(x),
{
    let a = leading_blocks(x);
    let k = a.len() as int;
    assert(a[0] == x.log_ext_degree);
    assert(a[1] == x.log_degree);
    assert(a[2] == x.preprocessed_width);
    assert(a[3] == x.trace_commit);
    assert(observed_at(events, 0, a[0]));
    assert(observed_at(events, 1, a[1]));
    assert(observed_at(events, 2, a[2]));
    assert(observed_at(events, 3, a[3]));
    lemma_read_whole_block(events, 0, x.log_ext_degree, shape.log_ext_degree_bytes, "log_ext_degree");
    lemma_read_whole_block(events, 1, x.log_degree, shape.log_degree_bytes, "log_degree");
    lemma_read_whole_block(events, 2, x.preprocessed_width, shape.preprocessed_width_bytes, "preprocessed_width");
    lemma_read_whole_block(events, 3, x.trace_commit, shape.trace_commit_bytes, "trace_commit");
    let p5: int = match x.preprocessed_commit {
        Some(p) => 5,
        None => 4,
    };
    match x.preprocessed_commit {
        Some(p) => {
            assert(a[4] == p);
            assert(observed_at(events, 4, a[4]));
            lemma_read_whole_block(events, 4, p, shape.preprocessed_commit_bytes->0, "preprocessed_commit");
        },
        None => {},
    }
    if x.air_public_values.len() > 0 {
        assert(a[p5] == x.air_public_values);
        assert(observed_at(events, p5, a[p5]));
        lemma_read_whole_block(events, p5, x.air_public_values, shape.air_public_values_bytes, "air_public_values");
    }
    lemma_read_one_sample(events, k, "alpha (batching challenge)");
    lemma_read_whole_block(events, k + 1, x.quotient_commit, shape.quotient_commit_bytes, "quotient_commit");
    lemma_read_whole_block(events, k + 2, x.randomizer_commit, shape.randomizer_commit_bytes, "randomizer_commit");
    lemma_read_one_sample(events, k + 3, "zeta (OOD point)");
    if x.air_public_values.len() == 0 {
        assert(x.air_public_values =~= Seq::<u8>::empty());
    }
}

/// A successful block read fills the block exactly and moves forward within
/// the log.
proof fn lemma_read_block_fills(
    events: Seq<ByteTranscriptEvent>,
    pos: int,
    acc: Seq<u8>,
    expected: usize,
    reading: &'static str,
)
    requires
        0 <= pos <= events.len(),
        acc.len() <= expected,
        read_block(events, pos, acc, expected, reading) is Ok,
    ensures
        read_block(events, pos, acc, expected, reading)->Ok_0.0.len() == expected,
        pos <= read_block(events, pos, acc, expected, reading)->Ok_0.1 <= events.len(),
    decreases events.len() - pos,
{
    if acc.len() < expected {
        if let ByteTranscriptEvent::Observed(b) = events[pos] {
            lemma_read_block_fills(events, pos + 1, acc + b@, expected, reading);
        }
    }
}

/// A successful block read never looks past its end position, so appending
/// events leaves it unchanged.
proof fn lemma_read_block_ignores_tail(
    events: Seq<ByteTranscriptEvent>,
    tail: Seq<ByteTranscriptEvent>,
    pos: int,
    acc: Seq<u8>,
    expected: usize,
    reading: &'static str,
)
    requires
        0 <= pos <= events.len(),
        read_block(events, pos, acc, expected, reading) is Ok,
    ensures
        read_block(events + tail, pos, acc, expected, reading) == read_block(events, pos, acc, expected, reading),
    decreases events.len() - pos,
{
    if acc.len() < expected {
        assert((events + tail)[pos] == events[pos]);
        if let ByteTranscriptEvent::Observed(b) = events[pos] {
            if acc.len() + b@.len() <= expected {
                lemma_read_block_ignores_tail(events, tail, pos + 1, acc + b@, expected, reading);
            }
        }
    }
}

/// A run of `Sampled` events never ends before it starts.
proof fn lemma_sampled_run_end_after_start(events: Seq<ByteTranscriptEvent>, pos: int)
    ensures
        pos <= sampled_run_end(events, pos),
    decreases events.len() - pos,
{
    if 0 <= pos < events.len() && events[pos] is Sampled {
        lemma_sampled_run_end_after_start(events, pos + 1);
    }
}

/// A run of `Sampled` events stays within the log, and appending events
/// changes neither a run that ends inside the log nor whether a run is
/// non-empty.
proof fn lemma_sampled_run_ignores_tail(events: Seq<ByteTranscriptEvent>, tail: Seq<ByteTranscriptEvent>, pos: int)
    requires
        0 <= pos <= events.len(),
    ensures
        pos <= sampled_run_end(events, pos) <= events.len(),
        sampled_run_end(events, pos) < events.len() ==> sampled_run_end(events + tail, pos) == sampled_run_end(events, pos),
        sampled_run_end(events, pos) > pos ==> sampled_run_end(events + tail, pos) > pos,
    decreases events.len() - pos,
{
    let all = events + tail;
    if pos < events.len() {
        assert(all[pos] == events[pos]);
        assert(pos < all.len());
        if events[pos] is Sampled {
            lemma_sampled_run_ignores_tail(events, tail, pos + 1);
            lemma_sampled_run_end_after_start(all, pos + 1);
            assert(sampled_run_end(all, pos) == sampled_run_end(all, pos + 1));
        } else {
            assert(sampled_run_end(all, pos) == pos);
        }
    }
}

/// Extraction reads blocks of exactly the shape's sizes: every slice of a
/// successful walk has the byte length the shape prescribes, the
/// preprocessed root is present exactly when the shape has one, and the
/// AIR public values have the shape's size (empty when it is zero).
pub proof fn law_extraction_block_sizes(events: Seq<ByteTranscriptEvent>, shape: LiveExtractorShape)
    requires
        pre_grind_outcome(events, shape) is Ok,
    ensures
        ({
            let x = pre_grind_outcome(events, shape)->Ok_0;
            &&& x.log_ext_degree.len() == shape.log_ext_degree_bytes
            &&& x.log_degree.len() == shape.log_degree_bytes
            &&& x.preprocessed_width.len() == shape.preprocessed_width_bytes
            &&& x.trace_commit.len() == shape.trace_commit_bytes
            &&& match (x.preprocessed_commit, shape.preprocessed_commit_bytes) {
                (Some(p), Some(n)) => p.len() == n,
                (None, None) => true,
                _ => false,
            }
            &&& x.air_public_values.len() == shape.air_public_values_bytes
            &&& x.quotient_commit.len() == shape.quotient_commit_bytes
            &&& x.randomizer_commit.len() == shape.randomizer_commit_bytes
        }),
{
    lemma_extraction_walk(events, Seq::empty(), shape);
}

/// Extraction never reads past the out-of-domain sample: appending any
/// events to a log that extracts leaves the extraction unchanged.
pub proof fn law_extraction_ignores_tail(
    events: Seq<ByteTranscriptEvent>,
    tail: Seq<ByteTranscriptEvent>,
    shape: LiveExtractorShape,
)
    requires
        pre_grind_outcome(events, shape) is Ok,
    ensures
        pre_grind_outcome(events + tail, shape) == pre_grind_outcome(events, shape),
{
    lemma_extraction_walk(events, tail, shape);
}

/// Both extraction laws, step by step along the walk.
proof fn lemma_extraction_walk(
    events: Seq<ByteTranscriptEvent>,
    tail: Seq<ByteTranscriptEvent>,
    shape: LiveExtractorShape,
)
    requires
        pre_grind_outcome(events, shape) is Ok,
    ensures
        ({
            let x = pre_grind_outcome(events, shape)->Ok_0;
            &&& x.log_ext_degree.len() == shape.log_ext_degree_bytes
            &&& x.log_degree.len() == shape.log_degree_bytes
            &&& x.preprocessed_width.len() == shape.preprocessed_width_bytes
            &&& x.trace_commit.len() == shape.trace_commit_bytes
            &&& match (x.preprocessed_commit, shape.preprocessed_commit_bytes) {
                (Some(p), Some(n)) => p.len() == n,
                (None, None) => true,
                _ => false,
            }
            &&& x.air_public_values.len() == shape.air_public_values_bytes
            &&& x.quotient_commit.len() == shape.quotient_commit_bytes
            &&& x.randomizer_commit.len() == shape.randomizer_commit_bytes
        }),
        pre_grind_outcome(events + tail, shape) == pre_grind_outcome(events, shape),
{
    let all = events + tail;
    let e0 = Seq::<u8>::empty();
    let r1 = read_block(events, 0, e0, shape.log_ext_degree_bytes, "log_ext_degree");
    lemma_read_block_fills(events, 0, e0, shape.log_ext_degree_bytes, "log_ext_degree");
    lemma_read_block_ignores_tail(events, tail, 0, e0, shape.log_ext_degree_bytes, "log_ext_degree");
    let p1 = r1->Ok_0.1;
    let r2 = read_block(events, p1, e0, shape.log_degree_bytes, "log_degree");
    lemma_read_block_fills(events, p1, e0, shape.log_degree_bytes, "log_degree");
    lemma_read_block_ignores_tail(events, tail, p1, e0, shape.log_degree_bytes, "log_degree");
    let p2 = r2->Ok_0.1;
    let r3 = read_block(events, p2, e0, shape.preprocessed_width_bytes, "preprocessed_width");
    lemma_read_block_fills(events, p2, e0, shape.preprocessed_width_bytes, "preprocessed_width");
    lemma_read_block_ignores_tail(events, tail, p2, e0, shape.preprocessed_width_bytes, "preprocessed_width");
    let p3 = r3->Ok_0.1;
    let r4 = read_block(events, p3, e0, shape.trace_commit_bytes, "trace_commit");
    lemma_read_block_fills(events, p3, e0, shape.trace_commit_bytes, "trace_commit");
    lemma_read_block_ignores_tail(events, tail, p3, e0, shape.trace_commit_bytes, "trace_commit");
    let p4 = r4->Ok_0.1;
    let p5: int = match shape.preprocessed_commit_bytes {
        Some(n) => {
            lemma_read_block_fills(events, p4, e0, n, "preprocessed_commit");
            lemma_read_block_ignores_tail(events, tail, p4, e0, n, "preprocessed_commit");
            read_block(events, p4, e0, n, "preprocessed_commit")->Ok_0.1
        },
        None => p4,
    };
    let p6: int = if shape.air_public_values_bytes > 0 {
        lemma_read_block_fills(events, p5, e0, shape.air_public_values_bytes, "air_public_values");
        lemma_read_block_ignores_tail(events, tail, p5, e0, shape.air_public_values_bytes, "air_public_values");
        read_block(events, p5, e0, shape.air_public_values_bytes, "air_public_values")->Ok_0.1
    } else {
        p5
    };
    lemma_sampled_run_ignores_tail(events, tail, p6);
    let p7 = sampled_run_end(events, p6);
    lemma_read_block_fills(events, p7, e0, shape.quotient_commit_bytes, "quotient_commit");
    lemma_read_block_ignores_tail(events, tail, p7, e0, shape.quotient_commit_bytes, "quotient_commit");
    let p8 = read_block(events, p7, e0, shape.quotient_commit_bytes, "quotient_commit")->Ok_0.1;
    lemma_read_block_fills(events, p8, e0, shape.randomizer_commit_bytes, "randomizer_commit");
    lemma_read_block_ignores_tail(events, tail, p8, e0, shape.randomizer_commit_bytes, "randomizer_commit");
    let p9 = read_block(events, p8, e0, shape.randomizer_commit_bytes, "randomizer_commit")->Ok_0.1;
    lemma_sampled_run_ignores_tail(events, tail, p9);
    if p7 == events.len() {
        assert(p8 == p7);
        assert(p9 == p7);
        assert(false);
    }
    assert(sampled_run_end(all, p6) == p7);
    assert(sampled_run_end(all, p9) > p9);
}

/// The bytes an event carries when it is an observation; nothing for a sample.
pub open spec fn observed_payload(e: ByteTranscriptEvent) -> Seq<u8> {
    match e {
        ByteTranscriptEvent::Observed(b) => b@,
        ByteTranscriptEvent::Sampled(_) => Seq::empty(),
    }
}

/// The concatenated observed payloads of events `from .. to`.
pub open spec fn observed_payloads(events: Seq<ByteTranscriptEvent>, from: int, to: int) -> Seq<u8>
    decreases to - from,
{
    if from >= to {
        Seq::empty()
    } else {
        observed_payload(events[from]) + observed_payloads(events, from + 1, to)
    }
}

/// A block read is the concatenation of the next observations: when a read
/// of `expected` bytes from event `pos` succeeds and ends at `p`, the events
/// `pos .. p` are all observations, and the block is exactly their payloads
/// joined in order, `expected` bytes long.
pub proof fn law_block_is_next_observations(
    events: Seq<ByteTranscriptEvent>,
    pos: int,
    expected: usize,
    reading: &'static str,
)
    requires
        0 <= pos <= events.len(),
        read_block(events, pos, Seq::empty(), expected, reading) is Ok,
    ensures
        ({
            let (b, p) = read_block(events, pos, Seq::empty(), expected, reading)->Ok_0;
            &&& pos <= p <= events.len()
            &&& forall|i: int| pos <= i < p ==> #[trigger] events[i] is Observed
            &&& b == observed_payloads(events, pos, p)
            &&& b.len() == expected
        }),
{
    lemma_read_block_payloads(events, pos, Seq::empty(), expected, reading);
    lemma_read_block_fills(events, pos, Seq::empty(), expected, reading);
    let p = read_block(events, pos, Seq::empty(), expected, reading)->Ok_0.1;
    assert(Seq::<u8>::empty() + observed_payloads(events, pos, p) =~= observed_payloads(events, pos, p));
}

proof fn lemma_read_block_payloads(
    events: Seq<ByteTranscriptEvent>,
    pos: int,
    acc: Seq<u8>,
    expected: usize,
    reading: &'static str,
)
    requires
        0 <= pos <= events.len(),
        read_block(events, pos, acc, expected, reading) is Ok,
    ensures
        ({
            let (b, p) = read_block(events, pos, acc, expected, reading)->Ok_0;
            &&& pos <= p
            &&& forall|i: int| pos <= i < p ==> #[trigger] events[i] is Observed
            &&& b == acc + observed_payloads(events, pos, p)
        }),
    decreases events.len() - pos,
{
    let (b, p) = read_block(events, pos, acc, expected, reading)->Ok_0;
    if acc.len() >= expected {
        assert(acc + observed_payloads(events, pos, p) =~= acc);
    } else {
        let c = events[pos]->Observed_0@;
        lemma_read_block_payloads(events, pos + 1, acc + c, expected, reading);
        assert(observed_payloads(events, pos, p) == c + observed_payloads(events, pos + 1, p));
        assert(acc + c + observed_payloads(events, pos + 1, p) =~= acc + (c + observed_payloads(events, pos + 1, p)));
    }
}

} // verus!
