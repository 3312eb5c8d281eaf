use vstd::prelude::*;
use crate::error::ValueError;

verus! {

/// Whether a value has `other` among its descendants, as far as it is decided before asking
/// the value's type: `same_object` tells whether `other` is the value itself, and
/// `being_mutated` whether the value is being mutated at the moment, which means that it is
/// the container into which `other` is being assigned. `None` means the value's type decides.
pub open spec fn descendant_shortcut(same_object: bool, being_mutated: bool) -> Option<bool> {
    if same_object || being_mutated {
        Some(true)
    } else {
        None
    }
}

/// Decides, as `descendant_shortcut` describes, whether `other` is a descendant of a value
/// before its type is asked.
pub fn is_descendant_shortcut(same_object: bool, being_mutated: bool) -> (r: Option<bool>)
    ensures
        r == descendant_shortcut(same_object, being_mutated),
{
    if same_object || being_mutated {
        Some(true)
    } else {
        None
    }
}

/// How a value is held by a container it is inserted into.
#[derive(Clone, Copy, PartialEq, Eq, Structural, Debug)]
pub enum Insertion {
    /// As a shared reference, which keeps the value alive.
    Shared,
    /// As a weak reference, which does not keep the value alive, so that a container that is
    /// one of the value's descendants does not keep itself alive.
    Weak,
}

/// How a value is inserted into a container: as a weak reference when the container is one
/// of its descendants (the insertion is recursive), as a shared reference otherwise.
pub open spec fn insertion_of(container_is_descendant: bool) -> Insertion {
    if container_is_descendant {
        Insertion::Weak
    } else {
        Insertion::Shared
    }
}

/// Decides, as `insertion_of` describes, how a value is inserted into a container.
pub fn container_insertion(container_is_descendant: bool) -> (r: Insertion)
    ensures
        r == insertion_of(container_is_descendant),
{
    if container_is_descendant {
        Insertion::Weak
    } else {
        Insertion::Shared
    }
}

/// Whether a value given by a `Value` handle may be inserted into a container: it may not
/// when the container is one of its descendants, which would make the structure recursive.
pub open spec fn value_insertion_of(container_is_descendant: bool) -> Result<(), ValueError> {
    if container_is_descendant {
        Err(ValueError::UnsupportedRecursiveDataStructure)
    } else {
        Ok(())
    }
}

/// Decides, as `value_insertion_of` describes, whether a value given by a `Value` handle may
/// be inserted into a container.
pub fn value_insertion(container_is_descendant: bool) -> (r: Result<(), ValueError>)
    ensures
        r == value_insertion_of(container_is_descendant),
{
    if container_is_descendant {
        Err(ValueError::UnsupportedRecursiveDataStructure)
    } else {
        Ok(())
    }
}

/// A value inserted into itself, or into a container that is being mutated, is a recursive
/// insertion: it is held by a weak reference when inserted as a typed value, and refused when
/// inserted by its `Value` handle.
pub proof fn lemma_self_insertion(same_object: bool, being_mutated: bool)
    requires
        same_object || being_mutated,
    ensures
        descendant_shortcut(same_object, being_mutated) == Some(true),
        insertion_of(descendant_shortcut(same_object, being_mutated)->0) == Insertion::Weak,
        value_insertion_of(descendant_shortcut(same_object, being_mutated)->0)
            == Err::<(), ValueError>(ValueError::UnsupportedRecursiveDataStructure),
{
}

} // verus!
