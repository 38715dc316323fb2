//! Degree budget for a masked batch-opening relation.
use vstd::prelude::*;
use crate::text::decimal;

verus! {

/// `a + b`, saturating at `usize::MAX`.
pub open spec fn sat_add(a: usize, b: usize) -> usize {
    if a + b > usize::MAX {
        usize::MAX
    } else {
        (a + b) as usize
    }
}

/// `a - b`, saturating at zero.
pub open spec fn sat_sub(a: usize, b: usize) -> usize {
    if a < b {
        0
    } else {
        (a - b) as usize
    }
}

/// `a * b`, saturating at `usize::MAX`.
pub open spec fn sat_mul(a: usize, b: usize) -> usize {
    if a * b > usize::MAX {
        usize::MAX
    } else {
        (a * b) as usize
    }
}

/// Saturating multiplication of two `usize` values.
pub fn saturating_mul_usize(a: usize, b: usize) -> (r: usize)
    ensures
        r == sat_mul(a, b),
{
    match a.checked_mul(b) {
        Some(p) => p,
        None => usize::MAX,
    }
}

/// Degree budget for a masked batch-opening relation.
///
/// Invariant: the randomizer degree never exceeds the relation degree plus
/// one (saturating), so the masked relation stays in the same degree class.
#[derive(Clone, Copy, Debug, PartialEq, Eq, Structural)]
pub struct DegreeBudget {
    relation_degree: usize,
    randomizer_degree: usize,
}

/// Error raised when the randomizer degree would force the masked relation outside its class.
#[derive(Clone, Copy, Debug, PartialEq, Eq, Structural)]
pub enum DegreeBudgetError {
    /// The randomizer degree exceeds the largest degree that preserves the target class.
    RandomizerTooLarge {
        /// Requested randomizer degree.
        randomizer_degree: usize,
        /// Largest allowed randomizer degree.
        max_allowed: usize,
    },
}

/// Degree bound of the masked relation: the larger of the relation degree and
/// the randomizer degree minus one (saturating at zero).
pub open spec fn masked_bound(relation_degree: usize, randomizer_degree: usize) -> usize {
    let term = sat_sub(randomizer_degree, 1);
    if term > relation_degree {
        term
    } else {
        relation_degree
    }
}

impl DegreeBudget {
    /// Degree bound of the unmasked relation, as a spec value.
    pub closed spec fn relation(self) -> usize {
        self.relation_degree
    }

    /// Degree bound of the randomizer, as a spec value.
    pub closed spec fn randomizer(self) -> usize {
        self.randomizer_degree
    }

    /// The budget's invariant: the randomizer stays within one degree of the relation.
    pub open spec fn wf(self) -> bool {
        self.randomizer() <= sat_add(self.relation(), 1)
    }

    /// Builds a degree budget and validates that the masked relation stays in the same class.
    pub fn new(relation_degree: usize, randomizer_degree: usize) -> (r: Result<Self, DegreeBudgetError>)
        ensures
            randomizer_degree <= sat_add(relation_degree, 1) <==> r is Ok,
            r matches Ok(b) ==> b.relation() == relation_degree && b.randomizer() == randomizer_degree
                && b.wf(),
            r matches Err(e) ==> e == (DegreeBudgetError::RandomizerTooLarge {
                randomizer_degree,
                max_allowed: sat_add(relation_degree, 1),
            }),
    {
        let budget = DegreeBudget { relation_degree, randomizer_degree };
        match budget.validate() {
            Ok(()) => Ok(budget),
            Err(e) => Err(e),
        }
    }

    /// Degree bound of the unmasked reduced batch-opening relation.
    pub fn relation_degree(self) -> (r: usize)
        ensures
            r == self.relation(),
    {
        self.relation_degree
    }

    /// Degree bound of the randomizer polynomial before quotienting by `(X - zeta)`.
    pub fn randomizer_degree(self) -> (r: usize)
        ensures
            r == self.randomizer(),
    {
        self.randomizer_degree
    }

    /// Degree bound of the masked relation after adding `(R(X) - R(zeta)) / (X - zeta)`.
    pub fn masked_relation_degree_bound(self) -> (r: usize)
        ensures
            r == masked_bound(self.relation(), self.randomizer()),
    {
        let randomizer_term_degree = self.randomizer_degree.saturating_sub(1);
        if randomizer_term_degree > self.relation_degree {
            randomizer_term_degree
        } else {
            self.relation_degree
        }
    }

    /// Returns `true` when the masking term preserves the original relation degree class.
    pub fn preserves_relation_degree(self) -> (r: bool)
        ensures
            r == (self.randomizer() <= sat_add(self.relation(), 1)),
    {
        self.randomizer_degree <= self.relation_degree.saturating_add(1)
    }

    fn validate(self) -> (r: Result<(), DegreeBudgetError>)
        ensures
            r is Ok <==> self.randomizer() <= sat_add(self.relation(), 1),
            r matches Err(e) ==> e == (DegreeBudgetError::RandomizerTooLarge {
                randomizer_degree: self.randomizer(),
                max_allowed: sat_add(self.relation(), 1),
            }),
    {
        let max_allowed = self.relation_degree.saturating_add(1);
        if self.randomizer_degree > max_allowed {
            return Err(
                DegreeBudgetError::RandomizerTooLarge {
                    randomizer_degree: self.randomizer_degree,
                    max_allowed,
                },
            );
        }
        Ok(())
    }
}

/// Every budget that [`DegreeBudget::new`] accepts keeps the masked relation
/// in the relation's degree class: its masked bound equals the relation degree.
pub proof fn law_accepted_budget_preserves_degree_class(relation_degree: usize, randomizer_degree: usize)
    requires
        randomizer_degree <= sat_add(relation_degree, 1),
    ensures
        masked_bound(relation_degree, randomizer_degree) == relation_degree,
{
}

/// Human-readable rendering of a degree-budget error.
pub open spec fn degree_budget_error_text(e: DegreeBudgetError) -> Seq<char> {
    match e {
        DegreeBudgetError::RandomizerTooLarge { randomizer_degree, max_allowed } => "randomizer degree "@
            + decimal(randomizer_degree as nat) + " exceeds the maximum allowed degree "@ + decimal(
            max_allowed as nat,
        ),
    }
}

impl DegreeBudgetError {
    /// Human-readable description of this error.
    pub fn message(&self) -> (r: String)
        ensures
            r@ == degree_budget_error_text(*self),
    {
        match self {
            DegreeBudgetError::RandomizerTooLarge { randomizer_degree, max_allowed } => {
                let mut s = String::from_str("randomizer degree ");
                crate::text::push_decimal(&mut s, *randomizer_degree as u64);
                s.append(" exceeds the maximum allowed degree ");
                crate::text::push_decimal(&mut s, *max_allowed as u64);
                s
            },
        }
    }
}

} // verus!
