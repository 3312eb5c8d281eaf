use vstd::prelude::*;
use crate::error::ValueError;

verus! {

/// The level of mutability of an iterable container.
///
/// A container starts `Mutable`; it can be frozen for the time of an iteration
/// (`FrozenForIteration`) and unfrozen afterwards, or frozen for good (`Immutable`).
#[derive(PartialEq, Eq, Structural, Hash, Debug)]
pub enum IterableMutability {
    Mutable,
    Immutable,
    FrozenForIteration,
}

/// The state after `freeze_for_iteration`: a frozen value stays frozen,
/// any other becomes frozen for iteration.
pub open spec fn frozen_for_iteration(m: IterableMutability) -> IterableMutability {
    if m == IterableMutability::Immutable {
        IterableMutability::Immutable
    } else {
        IterableMutability::FrozenForIteration
    }
}

/// The state after `unfreeze_for_iteration`: a frozen value stays frozen,
/// any other becomes mutable again.
pub open spec fn unfrozen_for_iteration(m: IterableMutability) -> IterableMutability {
    if m == IterableMutability::Immutable {
        IterableMutability::Immutable
    } else {
        IterableMutability::Mutable
    }
}

/// Whether a mutation is allowed in state `m`: `Ok` when mutable, otherwise the error
/// that tells why not.
pub open spec fn mutation_check(m: IterableMutability) -> Result<(), ValueError> {
    match m {
        IterableMutability::Mutable => Ok(()),
        IterableMutability::Immutable => Err(ValueError::CannotMutateImmutableValue),
        IterableMutability::FrozenForIteration => Err(ValueError::MutationDuringIteration),
    }
}

impl IterableMutability {
    /// Tests the mutability value and returns the appropriate error:
    /// `Ok(())` when mutable, `CannotMutateImmutableValue` when frozen and
    /// `MutationDuringIteration` when frozen for an iteration.
    pub fn test(&self) -> (r: Result<(), ValueError>)
        ensures
            r == mutation_check(*self),
    {
        match self {
            IterableMutability::Mutable => Ok(()),
            IterableMutability::Immutable => Err(ValueError::CannotMutateImmutableValue),
            IterableMutability::FrozenForIteration => Err(ValueError::MutationDuringIteration),
        }
    }

    /// Freezes the current value for good.
    pub fn freeze(&mut self)
        ensures
            *final(self) == IterableMutability::Immutable,
    {
        *self = IterableMutability::Immutable;
    }

    /// Tells whether the current value is permanently immutable.
    pub fn immutable(&self) -> (r: bool)
        ensures
            r == (*self == IterableMutability::Immutable),
    {
        *self == IterableMutability::Immutable
    }

    /// Freezes the current value for the time of an iteration, unless it is already
    /// permanently immutable.
    pub fn freeze_for_iteration(&mut self)
        ensures
            *final(self) == frozen_for_iteration(*old(self)),
    {
        if self.immutable() {
            return;
        }
        *self = IterableMutability::FrozenForIteration
    }

    /// Unfreezes the current value after an iteration, unless it is permanently immutable.
    pub fn unfreeze_for_iteration(&mut self)
        ensures
            *final(self) == unfrozen_for_iteration(*old(self)),
    {
        if self.immutable() {
            return;
        }
        *self = IterableMutability::Mutable
    }
}

/// Freezing is permanent: once frozen, neither freezing nor unfreezing for an iteration
/// makes the value mutable again, and every mutation is refused as a mutation of an
/// immutable value.
pub proof fn lemma_freeze_is_permanent(m: IterableMutability)
    requires
        m == IterableMutability::Immutable,
    ensures
        frozen_for_iteration(m) == IterableMutability::Immutable,
        unfrozen_for_iteration(m) == IterableMutability::Immutable,
        mutation_check(m) == Err::<(), ValueError>(ValueError::CannotMutateImmutableValue),
{
}

/// Freezing for an iteration and then unfreezing gives back a mutable value,
/// from any state that is not permanently frozen.
pub proof fn lemma_iteration_round_trip(m: IterableMutability)
    requires
        m != IterableMutability::Immutable,
    ensures
        unfrozen_for_iteration(frozen_for_iteration(m)) == IterableMutability::Mutable,
        mutation_check(unfrozen_for_iteration(frozen_for_iteration(m))) == Ok::<(), ValueError>(()),
{
}

/// During an iteration of a value that is not permanently frozen, a mutation is refused
/// as a mutation during iteration.
pub proof fn lemma_mutation_during_iteration(m: IterableMutability)
    requires
        m != IterableMutability::Immutable,
    ensures
        mutation_check(frozen_for_iteration(m)) == Err::<(), ValueError>(ValueError::MutationDuringIteration),
{
}

/// A mutation is allowed exactly when the value is mutable.
pub proof fn lemma_mutation_allowed_iff_mutable(m: IterableMutability)
    ensures
        (mutation_check(m) is Ok) <==> (m == IterableMutability::Mutable),
{
}

/// Freezing and freezing for an iteration are idempotent.
pub proof fn lemma_freezes_are_idempotent(m: IterableMutability)
    ensures
        frozen_for_iteration(frozen_for_iteration(m)) == frozen_for_iteration(m),
        unfrozen_for_iteration(unfrozen_for_iteration(m)) == unfrozen_for_iteration(m),
{
}

} // verus!
