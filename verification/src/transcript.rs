//! Transcript schedule for the SHROUD ZK batch-opening object.
//!
//! This module models the batch-opening schedule with an observed randomizer
//! commitment. It is not a generic transcript planner for non-ZK STARK or PCS
//! pipelines.
use vstd::prelude::*;

verus! {

/// Ordered stages for the SHROUD batch-opening transcript.
#[derive(Clone, Copy, Debug, PartialEq, Eq, Structural)]
pub enum TranscriptStage {
    /// Observe ordinary trace, preprocessing, or equivalent oracle commitments.
    ObserveMainCommitments,
    /// Sample the batching challenge used to form the reduced relation.
    SampleBatchingChallenge,
    /// Observe quotient commitments or equivalent post-constraint commitments.
    ObserveQuotientCommitments,
    /// Observe the auxiliary randomizer commitment.
    ObserveRandomizerCommitment,
    /// Sample the out-of-domain point used for the opening claim.
    SampleOodPoint,
    /// Observe the public opening values that define the statement-facing claim.
    ObservePublicOpenings,
    /// Produce or verify the low-degree proof for the masked relation.
    ProveMaskedRelation,
}

/// Position of a stage in the canonical schedule.
pub open spec fn stage_ordinal(stage: TranscriptStage) -> nat {
    match stage {
        TranscriptStage::ObserveMainCommitments => 0,
        TranscriptStage::SampleBatchingChallenge => 1,
        TranscriptStage::ObserveQuotientCommitments => 2,
        TranscriptStage::ObserveRandomizerCommitment => 3,
        TranscriptStage::SampleOodPoint => 4,
        TranscriptStage::ObservePublicOpenings => 5,
        TranscriptStage::ProveMaskedRelation => 6,
    }
}

/// The stage at a given position of the canonical schedule (`k < 7`).
pub open spec fn stage_at_ordinal(k: nat) -> TranscriptStage {
    if k == 0 {
        TranscriptStage::ObserveMainCommitments
    } else if k == 1 {
        TranscriptStage::SampleBatchingChallenge
    } else if k == 2 {
        TranscriptStage::ObserveQuotientCommitments
    } else if k == 3 {
        TranscriptStage::ObserveRandomizerCommitment
    } else if k == 4 {
        TranscriptStage::SampleOodPoint
    } else if k == 5 {
        TranscriptStage::ObservePublicOpenings
    } else {
        TranscriptStage::ProveMaskedRelation
    }
}

/// The canonical SHROUD ZK batch-opening transcript order.
pub open spec fn canonical_stages() -> Seq<TranscriptStage> {
    seq![
        TranscriptStage::ObserveMainCommitments,
        TranscriptStage::SampleBatchingChallenge,
        TranscriptStage::ObserveQuotientCommitments,
        TranscriptStage::ObserveRandomizerCommitment,
        TranscriptStage::SampleOodPoint,
        TranscriptStage::ObservePublicOpenings,
        TranscriptStage::ProveMaskedRelation,
    ]
}

/// Human-readable name of a stage.
pub open spec fn stage_label(stage: TranscriptStage) -> Seq<char> {
    match stage {
        TranscriptStage::ObserveMainCommitments => "observe main commitments"@,
        TranscriptStage::SampleBatchingChallenge => "sample batching challenge"@,
        TranscriptStage::ObserveQuotientCommitments => "observe quotient commitments"@,
        TranscriptStage::ObserveRandomizerCommitment => "observe randomizer commitment"@,
        TranscriptStage::SampleOodPoint => "sample out-of-domain point"@,
        TranscriptStage::ObservePublicOpenings => "observe public openings"@,
        TranscriptStage::ProveMaskedRelation => "prove masked relation"@,
    }
}

/// Position `i` of `s` repeats an earlier stage or comes before its predecessor.
pub open spec fn violation_at(s: Seq<TranscriptStage>, i: int) -> bool {
    ||| s.take(i).contains(s[i])
    ||| (i > 0 && stage_ordinal(s[i]) < stage_ordinal(s[i - 1]))
}

/// No position before `n` is a violation.
pub open spec fn clean_before(s: Seq<TranscriptStage>, n: int) -> bool {
    forall|j: int| 0 <= j < n ==> !#[trigger] violation_at(s, j)
}

/// `i` is the first violating position of `s`.
pub open spec fn first_violation(s: Seq<TranscriptStage>, i: int) -> bool {
    0 <= i < s.len() && violation_at(s, i) && clean_before(s, i)
}

/// `stage` is absent from `s`, and every stage ordered before it is present.
pub open spec fn first_missing(s: Seq<TranscriptStage>, stage: TranscriptStage) -> bool {
    &&& !s.contains(stage)
    &&& forall|k: nat| k < stage_ordinal(stage) ==> s.contains(#[trigger] stage_at_ordinal(k))
}

/// The outcome that [`TranscriptPlan::validate`] reports for a stage sequence:
/// the first repeated or out-of-order position, else the earliest absent
/// stage, else success.
pub open spec fn plan_outcome_matches(s: Seq<TranscriptStage>, r: Result<(), TranscriptPlanError>) -> bool {
    match r {
        Ok(()) => s == canonical_stages(),
        Err(TranscriptPlanError::DuplicateStage(x)) => exists|i: int|
            #![trigger s[i]]
            first_violation(s, i) && s.take(i).contains(s[i]) && x == s[i],
        Err(TranscriptPlanError::OutOfOrder { previous, observed }) => exists|i: int|
            #![trigger s[i]]
            first_violation(s, i) && !s.take(i).contains(s[i]) && previous == s[i - 1] && observed
                == s[i],
        Err(TranscriptPlanError::MissingStage(x)) => clean_before(s, s.len() as int) && first_missing(
            s,
            x,
        ),
    }
}

impl TranscriptStage {
    /// Position of this stage in the canonical schedule.
    fn ordinal(self) -> (k: usize)
        ensures
            k == stage_ordinal(self),
    {
        match self {
            TranscriptStage::ObserveMainCommitments => 0,
            TranscriptStage::SampleBatchingChallenge => 1,
            TranscriptStage::ObserveQuotientCommitments => 2,
            TranscriptStage::ObserveRandomizerCommitment => 3,
            TranscriptStage::SampleOodPoint => 4,
            TranscriptStage::ObservePublicOpenings => 5,
            TranscriptStage::ProveMaskedRelation => 6,
        }
    }

    /// The stage at a given position of the canonical schedule.
    fn from_ordinal(k: usize) -> (stage: TranscriptStage)
        requires
            k < 7,
        ensures
            stage == stage_at_ordinal(k as nat),
            stage_ordinal(stage) == k,
    {
        if k == 0 {
            TranscriptStage::ObserveMainCommitments
        } else if k == 1 {
            TranscriptStage::SampleBatchingChallenge
        } else if k == 2 {
            TranscriptStage::ObserveQuotientCommitments
        } else if k == 3 {
            TranscriptStage::ObserveRandomizerCommitment
        } else if k == 4 {
            TranscriptStage::SampleOodPoint
        } else if k == 5 {
            TranscriptStage::ObservePublicOpenings
        } else {
            TranscriptStage::ProveMaskedRelation
        }
    }

    /// Human-readable name of this stage.
    pub fn label(self) -> (r: &'static str)
        ensures
            r@ == stage_label(self),
    {
        match self {
            TranscriptStage::ObserveMainCommitments => "observe main commitments",
            TranscriptStage::SampleBatchingChallenge => "sample batching challenge",
            TranscriptStage::ObserveQuotientCommitments => "observe quotient commitments",
            TranscriptStage::ObserveRandomizerCommitment => "observe randomizer commitment",
            TranscriptStage::SampleOodPoint => "sample out-of-domain point",
            TranscriptStage::ObservePublicOpenings => "observe public openings",
            TranscriptStage::ProveMaskedRelation => "prove masked relation",
        }
    }
}

/// Ordinals determine stages, and `stage_at_ordinal` inverts `stage_ordinal`.
pub proof fn lemma_stage_ordinal_inverse(stage: TranscriptStage, k: nat)
    ensures
        stage_ordinal(stage) < 7,
        stage_at_ordinal(stage_ordinal(stage)) == stage,
        k < 7 ==> stage_ordinal(stage_at_ordinal(k)) == k,
{
}

/// Canonical transcript schedule for a SHROUD batch-opening object.
#[derive(Clone, Debug, PartialEq, Eq)]
pub struct TranscriptPlan {
    stages: Vec<TranscriptStage>,
}

impl View for TranscriptPlan {
    type V = Seq<TranscriptStage>;

    closed spec fn view(&self) -> Seq<TranscriptStage> {
        self.stages@
    }
}

/// Error raised when a transcript plan violates a SHROUD ordering invariant.
#[derive(Clone, Copy, Debug, PartialEq, Eq, Structural)]
pub enum TranscriptPlanError {
    /// A required stage is absent.
    MissingStage(TranscriptStage),
    /// A stage appears more than once.
    DuplicateStage(TranscriptStage),
    /// A stage appears before another stage it must follow.
    OutOfOrder {
        /// The last valid stage seen so far.
        previous: TranscriptStage,
        /// The stage that appeared too early.
        observed: TranscriptStage,
    },
}

/// Human-readable rendering of a transcript-plan error.
pub open spec fn plan_error_text(e: TranscriptPlanError) -> Seq<char> {
    match e {
        TranscriptPlanError::MissingStage(stage) => "missing transcript stage: "@ + stage_label(stage),
        TranscriptPlanError::DuplicateStage(stage) => "duplicate transcript stage: "@ + stage_label(
            stage,
        ),
        TranscriptPlanError::OutOfOrder { previous, observed } => "transcript stage "@
            + stage_label(observed) + " appears before it is allowed after "@ + stage_label(
            previous,
        ),
    }
}

impl TranscriptPlanError {
    /// Human-readable description of this error.
    pub fn message(&self) -> (r: String)
        ensures
            r@ == plan_error_text(*self),
    {
        match self {
            TranscriptPlanError::MissingStage(stage) => {
                let mut s = String::from_str("missing transcript stage: ");
                s.append(stage.label());
                s
            },
            TranscriptPlanError::DuplicateStage(stage) => {
                let mut s = String::from_str("duplicate transcript stage: ");
                s.append(stage.label());
                s
            },
            TranscriptPlanError::OutOfOrder { previous, observed } => {
                let mut s = String::from_str("transcript stage ");
                s.append(observed.label());
                s.append(" appears before it is allowed after ");
                s.append(previous.label());
                s
            },
        }
    }
}

/// A stage sequence without repeated or backwards positions has strictly
/// increasing ordinals; if it also holds every stage, it is the canonical
/// schedule.
pub proof fn lemma_clean_complete_is_canonical(s: Seq<TranscriptStage>)
    requires
        clean_before(s, s.len() as int),
        forall|k: nat| k < 7 ==> s.contains(#[trigger] stage_at_ordinal(k)),
    ensures
        s == canonical_stages(),
{
    lemma_clean_strictly_increasing(s);
    // Every position holds the stage whose ordinal is its index.
    assert forall|i: int| 0 <= i < s.len() implies stage_ordinal(#[trigger] s[i]) == i by {
        lemma_ordinal_equals_index(s, i);
    }
    let k6 = stage_at_ordinal(6);
    assert(s.contains(k6));
    let j6 = choose|j: int| 0 <= j < s.len() && s[j] == k6;
    assert(stage_ordinal(s[j6]) == 6);
    assert(s.len() >= 7);
    if s.len() > 7 {
        assert(stage_ordinal(s[7]) == 7);
        lemma_stage_ordinal_inverse(s[7], 0);
    }
    assert(s.len() == 7);
    assert forall|i: int| 0 <= i < 7 implies s[i] == canonical_stages()[i] by {
        lemma_stage_ordinal_inverse(s[i], i as nat);
    }
    assert(s =~= canonical_stages());
}

/// In a clean sequence, ordinals strictly increase with position.
proof fn lemma_clean_strictly_increasing(s: Seq<TranscriptStage>)
    requires
        clean_before(s, s.len() as int),
    ensures
        forall|i: int, j: int|
            0 <= i < j < s.len() ==> stage_ordinal(#[trigger] s[i]) < stage_ordinal(#[trigger] s[j]),
{
    assert forall|i: int, j: int| 0 <= i < j < s.len() implies stage_ordinal(#[trigger] s[i])
        < stage_ordinal(#[trigger] s[j]) by {
        lemma_increasing_from(s, i, j);
    }
}

proof fn lemma_increasing_from(s: Seq<TranscriptStage>, i: int, j: int)
    requires
        clean_before(s, s.len() as int),
        0 <= i < j < s.len(),
    ensures
        stage_ordinal(s[i]) < stage_ordinal(s[j]),
    decreases j - i,
{
    assert(!violation_at(s, j));
    assert(s.take(j)[j - 1] == s[j - 1]);
    assert(s.take(j).contains(s[j - 1]));
    if s[j] == s[j - 1] {
        assert(s.take(j).contains(s[j]));
    }
    if stage_ordinal(s[j]) == stage_ordinal(s[j - 1]) {
        lemma_stage_ordinal_inverse(s[j], 0);
        lemma_stage_ordinal_inverse(s[j - 1], 0);
    }
    if i < j - 1 {
        lemma_increasing_from(s, i, j - 1);
    }
}

proof fn lemma_ordinal_equals_index(s: Seq<TranscriptStage>, i: int)
    requires
        clean_before(s, s.len() as int),
        forall|k: nat| k < 7 ==> s.contains(#[trigger] stage_at_ordinal(k)),
        forall|a: int, b: int|
            0 <= a < b < s.len() ==> stage_ordinal(#[trigger] s[a]) < stage_ordinal(#[trigger] s[b]),
        0 <= i < s.len(),
    ensures
        stage_ordinal(s[i]) == i,
    decreases i,
{
    if i > 0 {
        lemma_ordinal_equals_index(s, i - 1);
    }
    // ordinal(s[i]) >= i follows from the predecessor; rule out ordinal > i.
    lemma_stage_ordinal_inverse(s[i], 0);
    if stage_ordinal(s[i]) > i {
        let target = stage_at_ordinal(i as nat);
        lemma_stage_ordinal_inverse(target, i as nat);
        assert(s.contains(target));
        let j = choose|j: int| 0 <= j < s.len() && s[j] == target;
        if j < i {
            lemma_ordinal_equals_index(s, j);
        } else if j > i {
            assert(stage_ordinal(s[i]) < stage_ordinal(s[j]));
        }
    }
}

/// The canonical schedule has no violating position.
proof fn lemma_canonical_is_clean()
    ensures
        clean_before(canonical_stages(), 7),
        forall|k: nat| k < 7 ==> canonical_stages().contains(#[trigger] stage_at_ordinal(k)),
{
    let c = canonical_stages();
    assert forall|j: int| 0 <= j < 7 implies !#[trigger] violation_at(c, j) by {
        assert forall|m: int| 0 <= m < c.take(j).len() implies c.take(j)[m] != c[j] by {
            assert(c.take(j)[m] == c[m]);
        }
    }
    assert forall|k: nat| k < 7 implies c.contains(#[trigger] stage_at_ordinal(k)) by {
        assert(c[k as int] == stage_at_ordinal(k));
    }
}

impl TranscriptPlan {
    /// Returns the canonical SHROUD ZK batch-opening transcript order.
    pub fn standard_batch_opening() -> (plan: Self)
        ensures
            plan@ == canonical_stages(),
    {
        let stages = vec![
            TranscriptStage::ObserveMainCommitments,
            TranscriptStage::SampleBatchingChallenge,
            TranscriptStage::ObserveQuotientCommitments,
            TranscriptStage::ObserveRandomizerCommitment,
            TranscriptStage::SampleOodPoint,
            TranscriptStage::ObservePublicOpenings,
            TranscriptStage::ProveMaskedRelation,
        ];
        let plan = TranscriptPlan { stages };
        assert(plan@ =~= canonical_stages());
        plan
    }

    /// Builds a plan holding exactly the given stage sequence; use
    /// [`Self::validate`] to check it against the SHROUD ordering invariant.
    pub fn new(stages: Vec<TranscriptStage>) -> (plan: Self)
        ensures
            plan@ == stages@,
    {
        TranscriptPlan { stages }
    }

    /// Returns the ordered transcript stages.
    pub fn stages(&self) -> (r: &[TranscriptStage])
        ensures
            r@ == self@,
    {
        self.stages.as_slice()
    }

    /// Validates that every required stage is present exactly once and in canonical order.
    ///
    /// Reports the first repeated stage or the first stage that comes before
    /// its predecessor; when there is none, the earliest absent stage.
    pub fn validate(&self) -> (r: Result<(), TranscriptPlanError>)
        ensures
            plan_outcome_matches(self@, r),
            r is Ok <==> self@ == canonical_stages(),
    {
        let ghost s = self@;
        let mut seen: Vec<bool> = vec![false, false, false, false, false, false, false];
        let mut previous: Option<TranscriptStage> = None;
        let mut i: usize = 0;
        proof {
            lemma_canonical_is_clean();
        }
        while i < self.stages.len()
            invariant
                s == self@,
                s == self.stages@,
                0 <= i <= s.len(),
                seen@.len() == 7,
                forall|k: nat| k < 7 ==> seen@[k as int] == s.take(i as int).contains(#[trigger] stage_at_ordinal(k)),
                clean_before(s, i as int),
                i == 0 ==> previous is None,
                i > 0 ==> previous == Some(s[i - 1]),
                clean_before(canonical_stages(), 7),
            decreases s.len() - i,
        {
            let stage = self.stages[i];
            let ordinal = stage.ordinal();
            proof {
                lemma_stage_ordinal_inverse(stage, 0);
            }
            if seen[ordinal] {
                proof {
                    assert(s.take(i as int).contains(stage_at_ordinal(ordinal as nat)));
                    assert(violation_at(s, i as int));
                    assert(first_violation(s, i as int));
                    assert(s.take(i as int).contains(s[i as int]));
                    if s == canonical_stages() {
                        assert(!violation_at(canonical_stages(), i as int));
                    }
                }
                return Err(TranscriptPlanError::DuplicateStage(stage));
            }
            seen.set(ordinal, true);
            if let Some(previous_stage) = previous {
                if ordinal < previous_stage.ordinal() {
                    proof {
                        assert(violation_at(s, i as int));
                        assert(first_violation(s, i as int));
                        assert(!s.take(i as int).contains(s[i as int]));
                        if s == canonical_stages() {
                            assert(!violation_at(canonical_stages(), i as int));
                        }
                    }
                    return Err(
                        TranscriptPlanError::OutOfOrder { previous: previous_stage, observed: stage },
                    );
                }
            }
            proof {
                assert(!violation_at(s, i as int));
                assert(s.take(i + 1) =~= s.take(i as int).push(stage));
                assert forall|k: nat| k < 7 implies seen@[k as int] == s.take(i + 1).contains(
                    #[trigger] stage_at_ordinal(k),
                ) by {
                    lemma_stage_ordinal_inverse(stage, k);
                    lemma_stage_ordinal_inverse(stage_at_ordinal(k), k);
                    if k != ordinal {
                        assert(stage_at_ordinal(k) != stage);
                        if s.take(i + 1).contains(stage_at_ordinal(k)) {
                            let m = choose|m: int|
                                #![trigger s.take(i + 1)[m]]
                                0 <= m < s.take(i + 1).len() && s.take(i + 1)[m] == stage_at_ordinal(k);
                            assert(s.take(i as int)[m] == stage_at_ordinal(k));
                        }
                    } else {
                        assert(s.take(i + 1)[i as int] == stage);
                    }
                }
                assert forall|j: int| 0 <= j < i + 1 implies !#[trigger] violation_at(s, j) by {
                    if j < i {
                        assert(!violation_at(s, j));
                    }
                }
            }
            previous = Some(stage);
            i = i + 1;
        }
        assert(s.take(s.len() as int) =~= s);
        let mut k: usize = 0;
        while k < 7
            invariant
                s == self@,
                s.take(s.len() as int) == s,
                0 <= k <= 7,
                seen@.len() == 7,
                forall|q: nat| q < 7 ==> seen@[q as int] == s.contains(#[trigger] stage_at_ordinal(q)),
                forall|q: nat| q < k ==> s.contains(#[trigger] stage_at_ordinal(q)),
                clean_before(s, s.len() as int),
                clean_before(canonical_stages(), 7),
            decreases 7 - k,
        {
            if !seen[k] {
                let missing = TranscriptStage::from_ordinal(k);
                proof {
                    assert(!s.contains(missing));
                    assert forall|q: nat| q < stage_ordinal(missing) implies s.contains(
                        #[trigger] stage_at_ordinal(q),
                    ) by {}
                    lemma_canonical_is_clean();
                    if s == canonical_stages() {
                        assert(canonical_stages().contains(stage_at_ordinal(k as nat)));
                    }
                }
                return Err(TranscriptPlanError::MissingStage(missing));
            }
            k = k + 1;
        }
        proof {
            lemma_clean_complete_is_canonical(s);
        }
        Ok(())
    }
}

} // verus!
