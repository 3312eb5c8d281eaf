use vstd::prelude::*;

verus! {

/// Errors raised by operations on values.
#[derive(Debug, Clone, PartialEq, Eq)]
pub enum ValueError {
    /// The operation `op` is not defined for the operand types `left` (and `right`).
    OperationNotSupported { op: String, left: String, right: Option<String> },
    /// A value of type `object_type` was used where something `op` (e.g. "iterable") is needed.
    TypeNotX { object_type: String, op: String },
    /// The value cannot be hashed.
    NotHashableValue,
    /// A value would be inserted into one of its own descendants.
    UnsupportedRecursiveDataStructure,
    /// The value is frozen and cannot be mutated any more.
    CannotMutateImmutableValue,
    /// The value is being iterated over and cannot be mutated until the iteration ends.
    MutationDuringIteration,
    /// A comparison went deeper than the recursion limit.
    TooManyRecursionLevel,
    /// A parameter does not have the expected type (e.g. a non-integer index).
    IncorrectParameterType,
    /// An index is out of the bounds of the indexed value.
    IndexOutOfBound(i64),
}

/// The text of an optional string.
pub open spec fn opt_text(s: Option<String>) -> Option<Seq<char>> {
    match s {
        Some(t) => Some(t@),
        None => None,
    }
}

impl ValueError {
    /// `self` reports that `op` is not supported on a left operand of type `left`
    /// and an optional right operand of type `right`.
    pub open spec fn is_unsupported(self, op: Seq<char>, left: Seq<char>, right: Option<Seq<char>>) -> bool {
        match self {
            ValueError::OperationNotSupported { op: o, left: l, right: r } =>
                o@ == op && l@ == left && opt_text(r) == right,
            _ => false,
        }
    }

    /// `self` reports that `op` is not supported on a left operand of type `left`,
    /// with some right operand.
    pub open spec fn is_unsupported_with_right(self, op: Seq<char>, left: Seq<char>) -> bool {
        match self {
            ValueError::OperationNotSupported { op: o, left: l, right: r } =>
                o@ == op && l@ == left && r is Some,
            _ => false,
        }
    }

    /// `self` reports that a value of type `object_type` is not `op`.
    pub open spec fn is_type_not(self, object_type: Seq<char>, op: Seq<char>) -> bool {
        match self {
            ValueError::TypeNotX { object_type: t, op: o } => t@ == object_type && o@ == op,
            _ => false,
        }
    }
}

} // verus!
