use std::cmp::Ordering;

use starlark::compare::{comparison_shortcut, compare_ints, compare_types, default_compare, equal_by, partial_order};
use starlark::defaults::{unsupported, Operation};
use starlark::index::{convert_index, convert_slice_indices, index_arg, index_fits, slice_indices_fit};
use starlark::{IndexArg, ValueError};

/// What the conversion to an integer gives for a string value.
fn string_to_int() -> Result<i64, ValueError> {
    Err(unsupported(Operation::ToInt, "string", None))
}

/// An integer value read as an index argument.
fn int_arg(x: i64) -> IndexArg {
    index_arg(Some(("int", Ok(x))))
}

#[test]
fn test_convert_index() {
    assert_eq!(Ok(6), convert_index(Ok(6), 7));
    assert_eq!(Ok(6), convert_index(Ok(-1), 7));
    assert_eq!(
        Ok((6, 7, 1)),
        convert_slice_indices(7, int_arg(6), index_arg(None), index_arg(None))
    );
    assert_eq!(
        Ok((6, -1, -1)),
        convert_slice_indices(7, int_arg(-1), index_arg(None), int_arg(-1))
    );
    assert_eq!(
        Ok((6, 7, 1)),
        convert_slice_indices(7, int_arg(-1), int_arg(10), index_arg(None))
    );
    // Errors
    assert_eq!(
        Err(ValueError::IncorrectParameterType),
        convert_index(string_to_int(), 7)
    );
    assert_eq!(Err(ValueError::IndexOutOfBound(8)), convert_index(Ok(8), 7));
    assert_eq!(Err(ValueError::IndexOutOfBound(-1)), convert_index(Ok(-8), 7));
}

#[derive(Debug, PartialEq, Eq, Ord, PartialOrd)]
struct WrappedNumber(u64);

/// The values of the comparison scenario: numbers wrapped in a type of their own, and a
/// plain integer.
enum TestValue {
    Wrapped(WrappedNumber),
    Int(i64),
}

impl TestValue {
    fn get_type(&self) -> &'static str {
        match self {
            TestValue::Wrapped(_) => "WrappedNumber",
            TestValue::Int(_) => "int",
        }
    }

    fn to_int(&self) -> Result<i64, ValueError> {
        match self {
            TestValue::Wrapped(_) => Err(unsupported(Operation::ToInt, "WrappedNumber", None)),
            TestValue::Int(x) => Ok(*x),
        }
    }

    /// Compares as a value does: first what does not depend on the type, then the type's
    /// own comparison, which for wrapped numbers orders them by their number and otherwise
    /// falls back to the default comparison.
    fn compare(&self, other: &TestValue, same_object: bool) -> Result<Ordering, ValueError> {
        if let Some(r) = comparison_shortcut(0, 200, same_object) {
            return r;
        }
        match (self, other) {
            (TestValue::Wrapped(a), TestValue::Wrapped(b)) => Ok(Ord::cmp(a, b)),
            _ => default_compare(self.get_type(), self.to_int(), other.get_type(), other.to_int()),
        }
    }
}

#[test]
fn can_implement_compare() {
    let one = TestValue::Wrapped(WrappedNumber(1));
    let another_one = TestValue::Wrapped(WrappedNumber(1));
    let two = TestValue::Wrapped(WrappedNumber(2));
    let not_wrapped_number = TestValue::Int(1);

    assert_eq!(one.compare(&one, true), Ok(Ordering::Equal));
    assert_eq!(one.compare(&another_one, false), Ok(Ordering::Equal));
    assert_eq!(one.compare(&two, false), Ok(Ordering::Less));
    assert_eq!(two.compare(&one, false), Ok(Ordering::Greater));
    assert_eq!(one.compare(&not_wrapped_number, false), Ok(Ordering::Greater));
    assert_eq!(not_wrapped_number.compare(&one, false), Ok(Ordering::Less));
}

#[test]
fn comparison_past_the_recursion_limit_is_refused() {
    assert_eq!(
        comparison_shortcut(201, 200, true),
        Some(Err(ValueError::TooManyRecursionLevel))
    );
    assert_eq!(comparison_shortcut(200, 200, true), Some(Ok(Ordering::Equal)));
    assert_eq!(comparison_shortcut(200, 200, false), None);
    // With a higher limit, deeper comparisons proceed.
    assert_eq!(comparison_shortcut(2500, 3000, true), Some(Ok(Ordering::Equal)));
    assert_eq!(comparison_shortcut(2500, 3000, false), None);
    assert_eq!(
        comparison_shortcut(3001, 3000, false),
        Some(Err(ValueError::TooManyRecursionLevel))
    );
}

#[test]
fn type_names_decide_unless_both_values_are_numeric() {
    assert_eq!(compare_types("int", "bool"), None);
    assert_eq!(compare_types("bool", "string"), Some(Ordering::Less));
    assert_eq!(compare_types("dict", "int"), Some(Ordering::Greater));
    assert_eq!(compare_types("list", "tuple"), Some(Ordering::Less));
    assert_eq!(compare_types("string", "str"), Some(Ordering::Greater));
    assert_eq!(compare_types("str", "string"), Some(Ordering::Less));
    assert_eq!(compare_types("dict", "dict"), Some(Ordering::Equal));
    assert_eq!(compare_ints(Ok(2), Ok(2)), Ok(Ordering::Equal));
    assert_eq!(compare_ints(Ok(-3), Ok(2)), Ok(Ordering::Less));
    assert_eq!(
        compare_ints(Err(ValueError::IncorrectParameterType), Err(ValueError::NotHashableValue)),
        Err(ValueError::IncorrectParameterType)
    );
}

#[test]
fn equality_and_partial_order_follow_the_comparison() {
    assert!(equal_by(&Ok(Ordering::Equal)));
    assert!(!equal_by(&Ok(Ordering::Less)));
    assert!(!equal_by(&Err(ValueError::TooManyRecursionLevel)));
    assert_eq!(partial_order(Ok(Ordering::Greater)), Some(Ordering::Greater));
    assert_eq!(partial_order(Err(ValueError::NotHashableValue)), None);
}

#[test]
fn default_compare_orders_numbers_first_then_by_type() {
    // Numbers compare by value, booleans counting as integers.
    assert_eq!(
        default_compare("int", Ok(3), "bool", Ok(1)),
        Ok(Ordering::Greater)
    );
    assert_eq!(default_compare("bool", Ok(0), "int", Ok(0)), Ok(Ordering::Equal));
    assert_eq!(default_compare("int", Ok(-5), "int", Ok(2)), Ok(Ordering::Less));
    // A number is smaller than any other value.
    assert_eq!(
        default_compare("int", Ok(100), "string", string_to_int()),
        Ok(Ordering::Less)
    );
    assert_eq!(
        default_compare("NoneType", Err(ValueError::NotHashableValue), "bool", Ok(1)),
        Ok(Ordering::Greater)
    );
    // Other values compare by the names of their types.
    assert_eq!(
        default_compare("list", Err(ValueError::NotHashableValue), "string", string_to_int()),
        Ok(Ordering::Less)
    );
    assert_eq!(
        default_compare("tuple", Err(ValueError::NotHashableValue), "string", string_to_int()),
        Ok(Ordering::Greater)
    );
    assert_eq!(
        default_compare("string", string_to_int(), "string", string_to_int()),
        Ok(Ordering::Equal)
    );
}

#[test]
fn default_compare_reports_the_first_failed_conversion() {
    let bad = || Err(ValueError::IncorrectParameterType);
    assert_eq!(default_compare("int", bad(), "int", Ok(1)), Err(ValueError::IncorrectParameterType));
    assert_eq!(
        default_compare("int", Ok(1), "bool", Err(ValueError::NotHashableValue)),
        Err(ValueError::NotHashableValue)
    );
}

#[test]
fn default_compare_is_antisymmetric_and_transitive() {
    let keys: Vec<(&str, Result<i64, ValueError>)> = vec![
        ("bool", Ok(0)),
        ("int", Ok(1)),
        ("int", Ok(7)),
        ("NoneType", Err(ValueError::NotHashableValue)),
        ("list", Err(ValueError::NotHashableValue)),
        ("string", string_to_int()),
    ];
    for (ta, ia) in &keys {
        for (tb, ib) in &keys {
            let ab = default_compare(ta, ia.clone(), tb, ib.clone()).unwrap();
            let ba = default_compare(tb, ib.clone(), ta, ia.clone()).unwrap();
            assert_eq!(ab, ba.reverse());
            for (tc, ic) in &keys {
                let bc = default_compare(tb, ib.clone(), tc, ic.clone()).unwrap();
                if ab == Ordering::Less && bc == Ordering::Less {
                    assert_eq!(default_compare(ta, ia.clone(), tc, ic.clone()), Ok(Ordering::Less));
                }
            }
        }
    }
}

#[test]
fn index_arguments_read_none_as_default() {
    assert_eq!(index_arg(None), IndexArg::Default);
    assert_eq!(
        index_arg(Some(("NoneType", Err(ValueError::NotHashableValue)))),
        IndexArg::Default
    );
    assert_eq!(index_arg(Some(("int", Ok(3)))), IndexArg::Int(3));
    assert_eq!(index_arg(Some(("string", string_to_int()))), IndexArg::NotInt);
}

#[test]
fn converted_indices_lie_in_range() {
    for len in 0..5i64 {
        for x in -8..8i64 {
            match convert_index(Ok(x), len) {
                Ok(i) => {
                    assert!(0 <= i && i < len);
                    assert_eq!(i, if x < 0 { len + x } else { x });
                }
                Err(e) => {
                    let i = if x < 0 { len + x } else { x };
                    assert!(i < 0 || i >= len);
                    assert_eq!(e, ValueError::IndexOutOfBound(i));
                }
            }
        }
    }
}

#[test]
fn slice_conversion_clamps_and_defaults() {
    // The whole sequence, forwards and backwards.
    assert_eq!(
        convert_slice_indices(7, IndexArg::Default, IndexArg::Default, IndexArg::Default),
        Ok((0, 7, 1))
    );
    assert_eq!(
        convert_slice_indices(7, IndexArg::Default, IndexArg::Default, int_arg(-1)),
        Ok((6, -1, -1))
    );
    // "banana"[4::-2]
    assert_eq!(
        convert_slice_indices(6, int_arg(4), IndexArg::Default, int_arg(-2)),
        Ok((4, -1, -2))
    );
    // Bounds are clamped into the sequence.
    assert_eq!(
        convert_slice_indices(3, int_arg(-10), int_arg(10), IndexArg::Default),
        Ok((0, 3, 1))
    );
    assert_eq!(
        convert_slice_indices(3, int_arg(10), int_arg(-10), int_arg(-1)),
        Ok((2, -1, -1))
    );
    // A `None` stride is the default stride.
    assert_eq!(
        convert_slice_indices(
            3,
            IndexArg::Default,
            IndexArg::Default,
            index_arg(Some(("NoneType", Err(ValueError::NotHashableValue))))
        ),
        Ok((0, 3, 1))
    );
}

#[test]
fn slice_conversion_errors() {
    assert_eq!(
        convert_slice_indices(7, IndexArg::Default, IndexArg::Default, int_arg(0)),
        Err(ValueError::IndexOutOfBound(0))
    );
    assert_eq!(
        convert_slice_indices(7, IndexArg::Default, IndexArg::Default, IndexArg::NotInt),
        Err(ValueError::IncorrectParameterType)
    );
    assert_eq!(
        convert_slice_indices(7, IndexArg::NotInt, IndexArg::Default, IndexArg::Default),
        Err(ValueError::IncorrectParameterType)
    );
    assert_eq!(
        convert_slice_indices(7, IndexArg::Default, IndexArg::NotInt, IndexArg::Default),
        Err(ValueError::IncorrectParameterType)
    );
}

#[test]
fn overflowing_conversions_are_detected() {
    assert!(index_fits(&Ok(-1), 0));
    assert!(!index_fits(&Ok(i64::MIN), -1));
    assert!(index_fits(&Err(ValueError::IncorrectParameterType), i64::MIN));
    assert!(slice_indices_fit(7, int_arg(-3), IndexArg::Default, IndexArg::Default));
    assert!(!slice_indices_fit(i64::MIN, IndexArg::Default, IndexArg::Default, int_arg(-1)));
    assert!(!slice_indices_fit(-1, int_arg(i64::MIN), IndexArg::Default, IndexArg::Default));
    assert!(slice_indices_fit(-1, int_arg(i64::MIN), IndexArg::Default, int_arg(0)));
}
